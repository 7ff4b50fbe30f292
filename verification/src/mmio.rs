//! MMIO register table: a sparse mapping from the addresses 0xFF00-0xFFFF
//! (the I/O registers and the final interrupt-enable byte) to a register
//! slot owned by an external device.
//!
//! Registration happens once, during machine assembly; registering the same
//! address twice is a configuration error. Within this core a registered
//! address is backed by a register cell the device and the execution loop
//! poll; device-specific behavior behind that cell is an external concern,
//! the table holds no logic beyond routing. Dispatch to an address with no
//! registered handler reads the fill value 0xFF and discards writes - it
//! never fails.

use vstd::prelude::*;

verus! {

/// Assembly-time misconfiguration of the register table.
#[derive(Clone, Copy, PartialEq, Eq, Structural, Debug)]
pub enum ConfigError {
    /// The address lies outside the MMIO range 0xFF00-0xFFFF.
    NotMmioAddress,
    /// The address already has a registered handler.
    HandlerAlreadyRegistered,
}

/// What a dispatched read returns: the register's value, or the fill value
/// 0xFF where no handler is registered.
pub open spec fn mmio_read(t: Seq<Option<u8>>, slot: int) -> u8 {
    match t[slot] {
        Some(v) => v,
        None => 0xFF,
    }
}

/// What a dispatched write leaves behind: the register takes the value,
/// or nothing changes where no handler is registered.
pub open spec fn mmio_write(t: Seq<Option<u8>>, slot: int, v: u8) -> Seq<Option<u8>> {
    if t[slot] is Some {
        t.update(slot, Some(v))
    } else {
        t
    }
}

/// The register table: one slot per address in 0xFF00-0xFFFF, `None` until
/// a handler is registered there.
#[derive(Debug)]
pub struct MmioTable {
    slots: Vec<Option<u8>>,
}

impl View for MmioTable {
    type V = Seq<Option<u8>>;

    closed spec fn view(&self) -> Seq<Option<u8>> {
        self.slots@
    }
}

impl MmioTable {
    /// Well-formedness: one slot for each of the 0x100 MMIO addresses.
    pub open spec fn wf(&self) -> bool {
        self@.len() == 0x100
    }

    /// An empty table: no address has a handler.
    pub fn new() -> (t: Self)
        ensures
            t.wf(),
            t@ == Seq::new(0x100, |i: int| None::<u8>),
    {
        let mut slots: Vec<Option<u8>> = Vec::new();
        let mut i: usize = 0;
        while i < 0x100
            invariant
                i <= 0x100,
                slots@.len() == i,
                forall|j: int| 0 <= j < i ==> slots@[j] is None,
            decreases 0x100 - i,
        {
            slots.push(None);
            i += 1;
        }
        proof {
            assert(slots@ =~= Seq::new(0x100, |i: int| None::<u8>));
        }
        MmioTable { slots }
    }

    /// Registers a handler for one MMIO address, giving its register cell
    /// an initial value. Succeeds exactly once per address; a second
    /// registration, or an address outside the MMIO range, is rejected and
    /// leaves the table unchanged.
    pub fn register(&mut self, address: u16, initial: u8) -> (r: Result<(), ConfigError>)
        requires
            old(self).wf(),
        ensures
            final(self).wf(),
            match r {
                Ok(()) => {
                    &&& 0xFF00 <= address
                    &&& old(self)@[address - 0xFF00] is None
                    &&& final(self)@ == old(self)@.update(address - 0xFF00, Some(initial))
                },
                Err(ConfigError::NotMmioAddress) => {
                    &&& address < 0xFF00
                    &&& final(self)@ == old(self)@
                },
                Err(ConfigError::HandlerAlreadyRegistered) => {
                    &&& 0xFF00 <= address
                    &&& old(self)@[address - 0xFF00] is Some
                    &&& final(self)@ == old(self)@
                },
            },
    {
        if address < 0xFF00 {
            return Err(ConfigError::NotMmioAddress);
        }
        let slot = (address - 0xFF00) as usize;
        if self.slots[slot].is_some() {
            return Err(ConfigError::HandlerAlreadyRegistered);
        }
        self.slots[slot] = Some(initial);
        Ok(())
    }

    /// Reads through the table: the register's value, or 0xFF where no
    /// handler is registered.
    pub fn dispatch_read(&self, address: u16) -> (v: u8)
        requires
            self.wf(),
            0xFF00 <= address,
        ensures
            v == mmio_read(self@, address - 0xFF00),
    {
        let slot = (address - 0xFF00) as usize;
        match self.slots[slot] {
            Some(v) => v,
            None => 0xFF,
        }
    }

    /// Writes through the table: the register takes the value, or the
    /// write is silently discarded where no handler is registered.
    pub fn dispatch_write(&mut self, address: u16, value: u8)
        requires
            old(self).wf(),
            0xFF00 <= address,
        ensures
            final(self).wf(),
            final(self)@ == mmio_write(old(self)@, address - 0xFF00, value),
    {
        let slot = (address - 0xFF00) as usize;
        if self.slots[slot].is_some() {
            self.slots[slot] = Some(value);
        }
    }

    /// The register cell registered at an address, or `None` where no
    /// handler is registered; lets the execution loop poll device state.
    pub fn registered_value(&self, address: u16) -> (r: Option<u8>)
        requires
            self.wf(),
            0xFF00 <= address,
        ensures
            r == self@[address - 0xFF00],
    {
        let slot = (address - 0xFF00) as usize;
        self.slots[slot]
    }
}

} // verus!
