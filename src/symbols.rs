//! Symbol lookups: a binary image's debug information, queried for the
//! source location and the enclosing function of an instruction address.
use vstd::prelude::*;
use addr2line::Context;
use gimli::{EndianRcSlice, RunTimeEndian};
use object::{Object, ObjectSection};

verus! {

/// The parsed debug information of one binary image.
///
/// The field holds addr2line's lookup context over the image's debug
/// sections, with its own copy of the section data; it is read only by the
/// lookups below.
#[verifier::external_body]
pub struct DebugData {
    ctx: Context<EndianRcSlice<RunTimeEndian>>,
}

/// A source position; each field is absent where the debug information has
/// no answer for it.
#[derive(Debug)]
pub struct SourceLocation {
    pub file: Option<String>,
    pub line: Option<u32>,
    pub column: Option<u32>,
}

/// The value of a source position.
pub ghost struct LocationModel {
    pub file: Option<Seq<char>>,
    pub line: Option<u32>,
    pub column: Option<u32>,
}

impl View for SourceLocation {
    type V = LocationModel;

    open spec fn view(&self) -> LocationModel {
        LocationModel {
            file: match self.file {
                Some(f) => Some(f@),
                None => None,
            },
            line: self.line,
            column: self.column,
        }
    }
}

/// A position none of whose fields is known.
pub open spec fn unknown_location() -> LocationModel {
    LocationModel { file: None, line: None, column: None }
}

/// The position that a lookup reports for an address: the entry of the
/// debug information, or nothing known where there is none. The top address
/// of the address space holds no code and is not looked up.
pub open spec fn location_at(data: DebugData, addr: u64) -> LocationModel {
    if addr == u64::MAX {
        unknown_location()
    } else {
        match location_entry(data, addr) {
            Some((file, line, column)) => LocationModel { file, line, column },
            None => unknown_location(),
        }
    }
}

/// The function name that a lookup reports for an address; the top address
/// is not looked up.
pub open spec fn function_name_at(data: DebugData, addr: u64) -> Option<Seq<char>> {
    if addr == u64::MAX {
        None
    } else {
        function_name_entry(data, addr)
    }
}

/// Whether the bytes parse as an object file.
pub uninterp spec fn object_parses(image: Seq<u8>) -> bool;

/// Whether a lookup context can be built over the debug sections of the
/// object file that the bytes hold.
pub uninterp spec fn debug_info_loads(image: Seq<u8>) -> bool;

/// The file, line and column that the debug information gives for an
/// address; `None` where it holds no entry for it or cannot be read there.
pub uninterp spec fn location_entry(data: DebugData, addr: u64) -> Option<(Option<Seq<char>>, Option<u32>, Option<u32>)>;

/// The raw name of the function that the debug information gives for an
/// address; `None` where it names none.
pub uninterp spec fn function_name_entry(data: DebugData, addr: u64) -> Option<Seq<char>>;

/// The value of an optional name.
pub open spec fn name_view(n: Option<String>) -> Option<Seq<char>> {
    match n {
        Some(s) => Some(s@),
        None => None,
    }
}

/// Relies on `object::File::parse`: whether the bytes read as an object file
/// of any supported format.
#[verifier::external_body]
fn parse_object(image: &[u8]) -> (r: bool)
    ensures
        r == object_parses(image@),
{
    object::File::parse(image).is_ok()
}

/// Relies on `object::File::parse`, `gimli::Dwarf::load` and
/// `addr2line::Context::from_dwarf`: reads the debug sections of the object
/// file that the bytes hold (a missing section reads as empty) and builds a
/// lookup context over them, or fails where they cannot be read.
#[verifier::external_body]
fn build_context(image: &[u8]) -> (r: Option<DebugData>)
    requires
        object_parses(image@),
    ensures
        r is Some <==> debug_info_loads(image@),
{
    let file = object::File::parse(image).ok()?;
    let endian = if file.is_little_endian() { RunTimeEndian::Little } else { RunTimeEndian::Big };
    let dwarf = gimli::Dwarf::load(|id| -> Result<_, gimli::Error> {
        let data = file.section_by_name(id.name()).and_then(|s| s.uncompressed_data().ok());
        Ok(EndianRcSlice::new(std::rc::Rc::from(data.as_deref().unwrap_or(&[])), endian))
    }).ok()?;
    Context::from_dwarf(dwarf).ok().map(|ctx| DebugData { ctx })
}

/// Relies on `addr2line::Context::find_location`: the file, line and column of
/// the address, with a failed lookup and a missing entry both as `None`.
/// The lookup computes `addr + 1`, so the top address is left out; below it
/// the line table is searched by binary search, with no arithmetic on row
/// addresses.
#[verifier::external_body]
fn lookup_location(data: &DebugData, addr: u64) -> (r: Option<SourceLocation>)
    requires
        addr < u64::MAX,
    ensures
        r is None <==> location_entry(*data, addr) is None,
        r matches Some(l) ==> location_entry(*data, addr) == Some((l@.file, l@.line, l@.column)),
{
    match data.ctx.find_location(addr) {
        Ok(Some(l)) => Some(SourceLocation {
            file: l.file.map(|f| f.to_string()),
            line: l.line,
            column: l.column,
        }),
        _ => None,
    }
}

/// Relies on `addr2line::Context::find_frames` (without loading split debug
/// files), `FrameIter::next` and `FunctionName::raw_name`: the raw name of the
/// innermost function frame at the address, with every failure along the way
/// as `None`. The three calls stand together because the frame types, bounded
/// by a `gimli` trait, cannot be declared to Verus. `find_frames` computes
/// `addr + 1`, so the top address is left out.
#[verifier::external_body]
fn lookup_function_name(data: &DebugData, addr: u64) -> (r: Option<String>)
    requires
        addr < u64::MAX,
    ensures
        name_view(r) == function_name_entry(*data, addr),
{
    let mut frames = data.ctx.find_frames(addr).skip_all_loads().ok()?;
    let frame = frames.next().ok()??;
    Some(frame.function?.raw_name().ok()?.into())
}

/// Why a binary image cannot be used for symbol lookups.
#[derive(PartialEq, Eq, Structural, Clone, Copy, Debug)]
pub enum LoadError {
    /// The bytes are not an object file.
    NotAnObject,
    /// The object file's debug sections cannot be read.
    BadDebugInfo,
}

/// A looked-up position, with a missing entry as the position of which
/// nothing is known.
pub fn location_or_unknown(entry: Option<SourceLocation>) -> (r: SourceLocation)
    ensures
        entry is None ==> r@ == unknown_location(),
        entry matches Some(l) ==> r@ == l@,
{
    match entry {
        Some(l) => l,
        None => SourceLocation { file: None, line: None, column: None },
    }
}

impl DebugData {
    /// Builds the lookup context of a binary image: succeeds exactly where
    /// the bytes are an object file whose debug sections can be read; fails
    /// with `NotAnObject` where they are no object file, and with
    /// `BadDebugInfo` where its debug sections cannot be read.
    pub fn new(image: &[u8]) -> (r: Result<DebugData, LoadError>)
        ensures
            r is Ok <==> object_parses(image@) && debug_info_loads(image@),
            r == Err::<DebugData, LoadError>(LoadError::NotAnObject) <==> !object_parses(image@),
            r == Err::<DebugData, LoadError>(LoadError::BadDebugInfo) <==> object_parses(image@)
                && !debug_info_loads(image@),
    {
        if !parse_object(image) {
            return Err(LoadError::NotAnObject);
        }
        match build_context(image) {
            Some(d) => Ok(d),
            None => Err(LoadError::BadDebugInfo),
        }
    }

    /// The source position of an address; never fails: where the debug
    /// information has no entry, every field is absent.
    pub fn find_location(&self, addr: u64) -> (r: SourceLocation)
        ensures
            r@ == location_at(*self, addr),
            location_entry(*self, addr) is None ==> r@ == unknown_location(),
            addr == u64::MAX ==> r@ == unknown_location(),
    {
        if addr == u64::MAX {
            return SourceLocation { file: None, line: None, column: None };
        }
        location_or_unknown(lookup_location(self, addr))
    }

    /// The raw name of the function enclosing an address, where the debug
    /// information names one.
    pub fn find_function_name(&self, addr: u64) -> (r: Option<String>)
        ensures
            name_view(r) == function_name_at(*self, addr),
            addr == u64::MAX ==> r is None,
    {
        if addr == u64::MAX {
            return None;
        }
        lookup_function_name(self, addr)
    }
}

} // verus!
