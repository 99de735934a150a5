//! The header of an LNX cartridge image.
use vstd::prelude::*;

verus! {

/// How the screen is rotated for a cartridge.
#[derive(Clone, Copy, Debug, PartialEq, Eq, Structural)]
pub enum LNXRotation {
    NoRotation,
    _270,
    _90,
}

impl Default for LNXRotation {
    fn default() -> (r: Self)
        ensures
            r == LNXRotation::NoRotation,
    {
        LNXRotation::NoRotation
    }
}

/// The fields of an LNX header.
#[derive(Clone, Debug)]
pub struct LNXHeader {
    rotation: LNXRotation,
    manufacturer: String,
    title: String,
    version: u16,
    bank0_size: u16,
    bank1_size: u16,
    spare: Vec<u8>,
}

/// The abstract state of an [`LNXHeader`].
pub struct LNXHeaderView {
    pub rotation: LNXRotation,
    pub manufacturer: Seq<char>,
    pub title: Seq<char>,
    pub version: u16,
    pub bank0_size: u16,
    pub bank1_size: u16,
    pub spare: Seq<u8>,
}

impl View for LNXHeader {
    type V = LNXHeaderView;

    closed spec fn view(&self) -> LNXHeaderView {
        LNXHeaderView {
            rotation: self.rotation,
            manufacturer: self.manufacturer@,
            title: self.title@,
            version: self.version,
            bank0_size: self.bank0_size,
            bank1_size: self.bank1_size,
            spare: self.spare@,
        }
    }
}

/// The header of an unknown cartridge: no rotation, "unknown" title and
/// manufacturer, zero sizes and version, no spare bytes.
pub open spec fn unknown_header() -> LNXHeaderView {
    LNXHeaderView {
        rotation: LNXRotation::NoRotation,
        manufacturer: "unknown"@,
        title: "unknown"@,
        version: 0,
        bank0_size: 0,
        bank1_size: 0,
        spare: Seq::empty(),
    }
}

impl LNXHeader {
    /// A header for an unknown cartridge: no rotation, "unknown" title and
    /// manufacturer, zero sizes and version, no spare bytes.
    pub fn new() -> (r: Self)
        ensures
            r@ == unknown_header(),
    {
        Self {
            rotation: LNXRotation::default(),
            manufacturer: "unknown".to_owned(),
            title: "unknown".to_owned(),
            version: 0,
            bank0_size: 0,
            bank1_size: 0,
            spare: Vec::new(),
        }
    }

    /// The screen rotation.
    pub fn rotation(&self) -> (r: LNXRotation)
        ensures
            r == self@.rotation,
    {
        self.rotation
    }

    /// The manufacturer.
    pub fn manufacturer(&self) -> (r: &str)
        ensures
            r@ == self@.manufacturer,
    {
        self.manufacturer.as_str()
    }

    /// The title.
    pub fn title(&self) -> (r: &str)
        ensures
            r@ == self@.title,
    {
        self.title.as_str()
    }

    /// The header version.
    pub fn version(&self) -> (r: u16)
        ensures
            r == self@.version,
    {
        self.version
    }

    /// The size of a page of bank 0, in bytes.
    pub fn bank0_size(&self) -> (r: u16)
        ensures
            r == self@.bank0_size,
    {
        self.bank0_size
    }

    /// The size of a page of bank 1, in bytes.
    pub fn bank1_size(&self) -> (r: u16)
        ensures
            r == self@.bank1_size,
    {
        self.bank1_size
    }

    /// The spare bytes.
    pub fn spare(&self) -> (r: &Vec<u8>)
        ensures
            r@ == self@.spare,
    {
        &self.spare
    }

    /// Sets the screen rotation.
    pub fn set_rotation(&mut self, rotation: LNXRotation)
        ensures
            final(self)@ == (LNXHeaderView { rotation, ..old(self)@ }),
    {
        self.rotation = rotation;
    }

    /// Sets the manufacturer.
    pub fn set_manufacturer(&mut self, manufacturer: String)
        ensures
            final(self)@ == (LNXHeaderView { manufacturer: manufacturer@, ..old(self)@ }),
    {
        self.manufacturer = manufacturer;
    }

    /// Sets the title.
    pub fn set_title(&mut self, title: String)
        ensures
            final(self)@ == (LNXHeaderView { title: title@, ..old(self)@ }),
    {
        self.title = title;
    }

    /// Sets the header version.
    pub fn set_version(&mut self, version: u16)
        ensures
            final(self)@ == (LNXHeaderView { version, ..old(self)@ }),
    {
        self.version = version;
    }

    /// Sets bank 0's page size.
    pub fn set_bank0_size(&mut self, bank0_size: u16)
        ensures
            final(self)@ == (LNXHeaderView { bank0_size, ..old(self)@ }),
    {
        self.bank0_size = bank0_size;
    }

    /// Sets bank 1's page size.
    pub fn set_bank1_size(&mut self, bank1_size: u16)
        ensures
            final(self)@ == (LNXHeaderView { bank1_size, ..old(self)@ }),
    {
        self.bank1_size = bank1_size;
    }

    /// Sets the spare bytes.
    pub fn set_spare(&mut self, spare: Vec<u8>)
        ensures
            final(self)@ == (LNXHeaderView { spare: spare@, ..old(self)@ }),
    {
        self.spare = spare;
    }

    /// The EEPROM type byte: the second spare byte.
    pub fn eeprom(&self) -> (r: u8)
        requires
            self@.spare.len() >= 2,
        ensures
            r == self@.spare[1],
    {
        self.spare[1]
    }
}

impl Default for LNXHeader {
    fn default() -> (r: Self)
        ensures
            r@ == unknown_header(),
    {
        Self::new()
    }
}

} // verus!
