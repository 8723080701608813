//! The information list of a SoundFont file.

use crate::error::{FourCC, SoundFontError};
use crate::binary_reader::{
    four_cc_at, i16_le_at, i32_le_at, read_fixed_length_string, read_four_cc, read_i16, read_i32,
    text_len, utf8_lossy,
};
use vstd::prelude::*;

verus! {

pub const LIST: u32 = 0x4C49_5354;

pub const INFO: u32 = 0x494E_464F;

pub const IFIL: u32 = 0x6966_696C;

pub const ISNG: u32 = 0x6973_6E67;

pub const INAM: u32 = 0x494E_414D;

pub const IROM: u32 = 0x6972_6F6D;

pub const IVER: u32 = 0x6976_6572;

pub const ICRD: u32 = 0x4943_5244;

pub const IENG: u32 = 0x4945_4E47;

pub const IPRD: u32 = 0x4950_5244;

pub const ICOP: u32 = 0x4943_4F50;

pub const ICMT: u32 = 0x4943_4D54;

pub const ISFT: u32 = 0x4953_4654;

/// A version number of a SoundFont.
#[derive(Clone, Copy, Debug, PartialEq, Eq, Structural)]
pub struct SoundFontVersion {
    pub major: i16,
    pub minor: i16,
}

/// The information of a SoundFont.
#[derive(Debug)]
pub struct SoundFontInfo {
    version: SoundFontVersion,
    target_sound_engine: String,
    bank_name: String,
    rom_name: String,
    rom_version: SoundFontVersion,
    creation_date: String,
    author: String,
    target_product: String,
    copyright: String,
    comments: String,
    tools: String,
}

/// The sub-chunk holds a version.
pub open spec fn is_version_id(id: int) -> bool {
    id == IFIL || id == IVER
}

/// The sub-chunk holds a text.
pub open spec fn is_text_id(id: int) -> bool {
    id == ISNG || id == INAM || id == IROM || id == ICRD || id == IENG || id == IPRD || id == ICOP
        || id == ICMT || id == ISFT
}

/// Walks the sub-chunks of an INFO list from `pos` on and notes for each
/// name where the data of its last sub-chunk lies and how long it is.
///
/// The list ends where `limit` bytes have been read since byte 8; a negative
/// limit is none.  A version takes four bytes whatever its sub-chunk says.
/// The walk fails where the bytes end early and where a sub-chunk has a
/// name that an INFO list does not have.
pub open spec fn info_table(
    data: Seq<u8>,
    pos: int,
    limit: int,
    found: Map<int, (int, int)>,
) -> Result<Map<int, (int, int)>, SoundFontError>
    decreases data.len() - pos,
{
    if 0 <= limit <= pos - 8 {
        Ok(found)
    } else if pos < 0 || pos + 8 > data.len() {
        Err(SoundFontError::IoError)
    } else {
        let id = four_cc_at(data, pos);
        let size = i32_le_at(data, pos + 4);
        if is_version_id(id) {
            if pos + 12 > data.len() {
                Err(SoundFontError::IoError)
            } else {
                info_table(data, pos + 12, limit, found.insert(id, (pos + 8, 4)))
            }
        } else if is_text_id(id) {
            if size < 0 || pos + 8 + size > data.len() {
                Err(SoundFontError::IoError)
            } else {
                info_table(data, pos + 8 + size, limit, found.insert(id, (pos + 8, size)))
            }
        } else {
            Err(SoundFontError::ListContainsUnknownId(FourCC(id as u32)))
        }
    }
}

/// What reading an INFO list from the start of `data` gives: the table of
/// its sub-chunks, or the first thing that is wrong.
pub open spec fn info_outcome(data: Seq<u8>) -> Result<Map<int, (int, int)>, SoundFontError> {
    if data.len() < 4 {
        Err(SoundFontError::IoError)
    } else if four_cc_at(data, 0) != LIST {
        Err(SoundFontError::ListChunkNotFound)
    } else if data.len() < 12 {
        Err(SoundFontError::IoError)
    } else if four_cc_at(data, 8) != INFO {
        Err(
            SoundFontError::InvalidListChunkType {
                expected: FourCC(INFO),
                actual: FourCC(four_cc_at(data, 8) as u32),
            },
        )
    } else {
        info_table(data, 12, i32_le_at(data, 4), Map::empty())
    }
}

/// The text of a name in a table: empty where the list has no such
/// sub-chunk.
pub open spec fn text_of(found: Map<int, (int, int)>, data: Seq<u8>, id: int) -> Seq<char> {
    if found.contains_key(id) {
        let (start, size) = found[id];
        utf8_lossy(data.subrange(start, start + text_len(data, start, size)))
    } else {
        Seq::empty()
    }
}

/// The version of a name in a table: 0.0 where the list has no such
/// sub-chunk.
pub open spec fn version_of(found: Map<int, (int, int)>, data: Seq<u8>, id: int) -> SoundFontVersion {
    if found.contains_key(id) {
        let (start, size) = found[id];
        SoundFontVersion {
            major: i16_le_at(data, start) as i16,
            minor: i16_le_at(data, start + 2) as i16,
        }
    } else {
        SoundFontVersion { major: 0, minor: 0 }
    }
}

/// Reads the version at `pos`: two numbers of 16 bits, the major one first.
fn read_version(data: &[u8], pos: usize) -> (version: SoundFontVersion)
    requires
        pos + 4 <= data@.len(),
    ensures
        version == (SoundFontVersion {
            major: i16_le_at(data@, pos as int) as i16,
            minor: i16_le_at(data@, pos + 2) as i16,
        }),
{
    let length: usize = data.len();
    SoundFontVersion { major: read_i16(data, pos), minor: read_i16(data, pos + 2) }
}

impl SoundFontInfo {
    /// The info holds what the table says of each name.
    pub open spec fn holds(&self, found: Map<int, (int, int)>, data: Seq<u8>) -> bool {
        &&& forall|id: int| is_text_id(id) ==> #[trigger] self.text(id) == text_of(found, data, id)
        &&& forall|id: int|
            is_version_id(id) ==> #[trigger] self.version_by(id) == version_of(found, data, id)
    }

    /// The text that the info holds under the name of a sub-chunk.
    pub open spec fn text(&self, id: int) -> Seq<char> {
        if id == ISNG {
            self.target_sound_engine()
        } else if id == INAM {
            self.bank_name()
        } else if id == IROM {
            self.rom_name()
        } else if id == ICRD {
            self.creation_date()
        } else if id == IENG {
            self.author()
        } else if id == IPRD {
            self.target_product()
        } else if id == ICOP {
            self.copyright()
        } else if id == ICMT {
            self.comments()
        } else {
            self.tools()
        }
    }

    /// The version that the info holds under the name of a sub-chunk.
    pub open spec fn version_by(&self, id: int) -> SoundFontVersion {
        if id == IFIL {
            self.version()
        } else {
            self.rom_version()
        }
    }

    fn set_text(&mut self, id: u32, text: String)
        requires
            is_text_id(id as int),
        ensures
            forall|other: int|
                is_text_id(other) ==> #[trigger] final(self).text(other) == if other == id {
                    text@
                } else {
                    old(self).text(other)
                },
            forall|other: int| #[trigger] final(self).version_by(other) == old(self).version_by(other),
    {
        if id == ISNG {
            self.target_sound_engine = text;
        } else if id == INAM {
            self.bank_name = text;
        } else if id == IROM {
            self.rom_name = text;
        } else if id == ICRD {
            self.creation_date = text;
        } else if id == IENG {
            self.author = text;
        } else if id == IPRD {
            self.target_product = text;
        } else if id == ICOP {
            self.copyright = text;
        } else if id == ICMT {
            self.comments = text;
        } else {
            self.tools = text;
        }
    }

    fn set_version(&mut self, id: u32, version: SoundFontVersion)
        requires
            is_version_id(id as int),
        ensures
            forall|other: int|
                is_version_id(other) ==> #[trigger] final(self).version_by(other) == if other
                    == id {
                    version
                } else {
                    old(self).version_by(other)
                },
            forall|other: int| #[trigger] final(self).text(other) == old(self).text(other),
    {
        if id == IFIL {
            self.version = version;
        } else {
            self.rom_version = version;
        }
    }

    pub closed spec fn version(&self) -> SoundFontVersion {
        self.version
    }

    pub closed spec fn target_sound_engine(&self) -> Seq<char> {
        self.target_sound_engine@
    }

    pub closed spec fn bank_name(&self) -> Seq<char> {
        self.bank_name@
    }

    pub closed spec fn rom_name(&self) -> Seq<char> {
        self.rom_name@
    }

    pub closed spec fn rom_version(&self) -> SoundFontVersion {
        self.rom_version
    }

    pub closed spec fn creation_date(&self) -> Seq<char> {
        self.creation_date@
    }

    pub closed spec fn author(&self) -> Seq<char> {
        self.author@
    }

    pub closed spec fn target_product(&self) -> Seq<char> {
        self.target_product@
    }

    pub closed spec fn copyright(&self) -> Seq<char> {
        self.copyright@
    }

    pub closed spec fn comments(&self) -> Seq<char> {
        self.comments@
    }

    pub closed spec fn tools(&self) -> Seq<char> {
        self.tools@
    }

    /// Reads the INFO list at the start of `data`.
    ///
    /// Of several sub-chunks with one name the last counts; what the list
    /// does not have is empty, a version 0.0.
    pub fn new(data: &[u8]) -> (result: Result<Self, SoundFontError>)
        ensures
            match info_outcome(data@) {
                Ok(found) => result matches Ok(info) && info.holds(found, data@),
                Err(error) => result matches Err(e) && e == error,
            },
    {
        if data.len() < 4 {
            return Err(SoundFontError::IoError);
        }
        if read_four_cc(data, 0) != LIST {
            return Err(SoundFontError::ListChunkNotFound);
        }
        if data.len() < 12 {
            return Err(SoundFontError::IoError);
        }
        let limit: i32 = read_i32(data, 4);
        let list_type: u32 = read_four_cc(data, 8);
        if list_type != INFO {
            return Err(
                SoundFontError::InvalidListChunkType {
                    expected: FourCC(INFO),
                    actual: FourCC(list_type),
                },
            );
        }
        let mut info = SoundFontInfo {
            version: SoundFontVersion { major: 0, minor: 0 },
            target_sound_engine: String::new(),
            bank_name: String::new(),
            rom_name: String::new(),
            rom_version: SoundFontVersion { major: 0, minor: 0 },
            creation_date: String::new(),
            author: String::new(),
            target_product: String::new(),
            copyright: String::new(),
            comments: String::new(),
            tools: String::new(),
        };
        let ghost mut found: Map<int, (int, int)> = Map::empty();
        assert(info.holds(found, data@)) by {
            assert forall|id: int| is_text_id(id) implies #[trigger] info.text(id) == text_of(
                found,
                data@,
                id,
            ) by {
                assert(info.text(id) =~= Seq::<char>::empty());
            }
        }
        let mut pos: usize = 12;
        loop
            invariant
                12 <= pos <= data@.len(),
                info.holds(found, data@),
                info_outcome(data@) == info_table(data@, 12, limit as int, Map::empty()),
                info_table(data@, 12, limit as int, Map::empty()) == info_table(
                    data@,
                    pos as int,
                    limit as int,
                    found,
                ),
            ensures
                info.holds(found, data@),
                info_table(data@, 12, limit as int, Map::empty()) == Ok::<
                    Map<int, (int, int)>,
                    SoundFontError,
                >(found),
            decreases data@.len() - pos,
        {
            if limit >= 0 && pos - 8 >= limit as usize {
                break ;
            }
            if data.len() - pos < 8 {
                return Err(SoundFontError::IoError);
            }
            let id: u32 = read_four_cc(data, pos);
            let size: i32 = read_i32(data, pos + 4);
            let start: usize = pos + 8;
            if id == IFIL || id == IVER {
                if data.len() - start < 4 {
                    return Err(SoundFontError::IoError);
                }
                let version = read_version(data, start);
                info.set_version(id, version);
                proof {
                    found = found.insert(id as int, (start as int, 4));
                }
                pos = start + 4;
            } else if id == ISNG || id == INAM || id == IROM || id == ICRD || id == IENG || id
                == IPRD || id == ICOP || id == ICMT || id == ISFT {
                if size < 0 || data.len() - start < size as usize {
                    return Err(SoundFontError::IoError);
                }
                let text = read_fixed_length_string(data, start, size as usize);
                info.set_text(id, text);
                proof {
                    found = found.insert(id as int, (start as int, size as int));
                }
                pos = start + size as usize;
            } else {
                return Err(SoundFontError::ListContainsUnknownId(FourCC(id)));
            }
        }
        Ok(info)
    }

    /// Gets the version of the SoundFont.
    pub fn get_version(&self) -> (version: &SoundFontVersion)
        ensures
            *version == self.version(),
    {
        &self.version
    }

    /// Gets the target sound engine of the SoundFont.
    pub fn get_target_sound_engine(&self) -> (text: &str)
        ensures
            text@ == self.target_sound_engine(),
    {
        self.target_sound_engine.as_str()
    }

    /// Gets the bank name of the SoundFont.
    pub fn get_bank_name(&self) -> (text: &str)
        ensures
            text@ == self.bank_name(),
    {
        self.bank_name.as_str()
    }

    /// Gets the ROM name of the SoundFont.
    pub fn get_rom_name(&self) -> (text: &str)
        ensures
            text@ == self.rom_name(),
    {
        self.rom_name.as_str()
    }

    /// Gets the ROM version of the SoundFont.
    pub fn get_rom_version(&self) -> (version: &SoundFontVersion)
        ensures
            *version == self.rom_version(),
    {
        &self.rom_version
    }

    /// Gets the creation date of the SoundFont.
    pub fn get_creation_date(&self) -> (text: &str)
        ensures
            text@ == self.creation_date(),
    {
        self.creation_date.as_str()
    }

    /// Gets the author of the SoundFont.
    pub fn get_author(&self) -> (text: &str)
        ensures
            text@ == self.author(),
    {
        self.author.as_str()
    }

    /// Gets the target product of the SoundFont.
    pub fn get_target_product(&self) -> (text: &str)
        ensures
            text@ == self.target_product(),
    {
        self.target_product.as_str()
    }

    /// Gets the copyright message for the SoundFont.
    pub fn get_copyright(&self) -> (text: &str)
        ensures
            text@ == self.copyright(),
    {
        self.copyright.as_str()
    }

    /// Gets the comments for the SoundFont.
    pub fn get_comments(&self) -> (text: &str)
        ensures
            text@ == self.comments(),
    {
        self.comments.as_str()
    }

    /// Gets the tools used to create the SoundFont.
    pub fn get_tools(&self) -> (text: &str)
        ensures
            text@ == self.tools(),
    {
        self.tools.as_str()
    }
}

} // verus!
