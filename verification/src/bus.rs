use vstd::prelude::*;

verus! {

/// The state of a transaction on the shared system bus.
#[derive(Debug, Clone, Copy, PartialEq, Eq, Structural)]
pub enum BusStatus {
    Idle,
    PeekCart0,
    PeekCart1,
    PokeCart0,
    PokeCart1,
    PeekIncCartRipple,
    PokeIncCartRipple,
    PeekCore,
    PokeCore,
    Peek,
    Poke,
    PeekRAM,
    PeekDone,
    PokeDone,
}

/// The system bus shared by the CPU, Suzy and the memory devices.
pub struct Bus {
    data: u8,
    addr: u16,
    status: BusStatus,
    request: bool,
    grant: bool,
}

/// The abstract state of a [`Bus`].
pub struct BusView {
    pub data: u8,
    pub addr: u16,
    pub status: BusStatus,
    pub request: bool,
    pub grant: bool,
}

impl View for Bus {
    type V = BusView;

    closed spec fn view(&self) -> BusView {
        BusView {
            data: self.data,
            addr: self.addr,
            status: self.status,
            request: self.request,
            grant: self.grant,
        }
    }
}

impl Bus {
    /// An idle bus: no transaction, no request, and the bus granted.
    pub fn new() -> (r: Self)
        ensures
            r@ == (BusView { data: 0, addr: 0, status: BusStatus::Idle, request: false, grant: true }),
    {
        Self { data: 0, addr: 0, status: BusStatus::Idle, request: false, grant: true }
    }

    pub fn data(&self) -> (r: u8)
        ensures
            r == self@.data,
    {
        self.data
    }

    pub fn addr(&self) -> (r: u16)
        ensures
            r == self@.addr,
    {
        self.addr
    }

    pub fn status(&self) -> (r: BusStatus)
        ensures
            r == self@.status,
    {
        self.status
    }

    pub fn request(&self) -> (r: bool)
        ensures
            r == self@.request,
    {
        self.request
    }

    pub fn grant(&self) -> (r: bool)
        ensures
            r == self@.grant,
    {
        self.grant
    }

    pub fn set_data(&mut self, data: u8)
        ensures
            final(self)@ == (BusView { data, ..old(self)@ }),
    {
        self.data = data;
    }

    pub fn set_addr(&mut self, addr: u16)
        ensures
            final(self)@ == (BusView { addr, ..old(self)@ }),
    {
        self.addr = addr;
    }

    pub fn set_status(&mut self, status: BusStatus)
        ensures
            final(self)@ == (BusView { status, ..old(self)@ }),
    {
        self.status = status;
    }

    pub fn set_request(&mut self, request: bool)
        ensures
            final(self)@ == (BusView { request, ..old(self)@ }),
    {
        self.request = request;
    }

    pub fn set_grant(&mut self, grant: bool)
        ensures
            final(self)@ == (BusView { grant, ..old(self)@ }),
    {
        self.grant = grant;
    }
}

impl Default for Bus {
    fn default() -> (r: Self)
        ensures
            r@ == (BusView { data: 0, addr: 0, status: BusStatus::Idle, request: false, grant: true }),
    {
        Self::new()
    }
}

} // verus!
