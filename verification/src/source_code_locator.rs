//! From an address to the source line it was compiled from.
//!
//! The line tables are read by `addr2line`. The locator loads them once and
//! then answers each query from what was loaded; what the engine adds is the
//! rule that a location counts only when it names both a file and a line.
//!
//! What a loader holds is spoken of as a map, `line_table`, from each
//! address that an entry covers to that entry. The map has no definition
//! here: it is whatever the loader read. The one call that looks an address
//! up is trusted to answer from it.

use vstd::prelude::*;
use addr2line::Loader;
use crate::error::DebuggerError;

verus! {

/// `addr2line::Loader`, the debug information of one executable as loaded.
#[verifier::external_type_specification]
#[verifier::external_body]
pub struct ExLoader(addr2line::Loader);

/// What the line tables hold for one address. Either part may be missing.
#[derive(Debug, PartialEq, Eq)]
pub struct LineEntry {
    pub file: Option<String>,
    pub line: Option<u32>,
}

/// A `LineEntry` with the file name as a sequence of characters.
pub struct LineEntryView {
    pub file: Option<Seq<char>>,
    pub line: Option<u32>,
}

impl View for LineEntry {
    type V = LineEntryView;

    open spec fn view(&self) -> LineEntryView {
        LineEntryView {
            file: match self.file {
                Some(name) => Some(name@),
                None => None,
            },
            line: self.line,
        }
    }
}

/// The line tables that a loader holds: for each address that an entry
/// covers, that entry.
///
/// A loader reads its file once, when it is made, and parses and keeps the
/// tables as they are asked for. It takes the file not to change under it,
/// and so does this map.
pub uninterp spec fn line_table(loader: Loader) -> Map<u64, LineEntryView>;

/// Calls `addr2line::Loader::new` on the file at `path`. The error, a boxed
/// `std::error::Error`, is dropped.
#[verifier::external_body]
fn load(path: &str) -> (loaded: Result<Loader, ()>) {
    Loader::new(path).map_err(|_| ())
}

/// Calls `addr2line::Loader::find_location` and copies the file name and the
/// line of what it finds. The error, a boxed `std::error::Error`, is
/// dropped.
///
/// The lookup searches the tables that the loader holds and changes
/// nothing that a later lookup reads: an entry that it finds is the entry
/// of `line_table` at the address, and where it finds none, `line_table`
/// has none there. Of a lookup that fails on a table that cannot be parsed,
/// nothing is said.
///
/// The loader adds one to the address it is asked for, so the last address
/// is kept from it. A line that it reports is never zero: it reports a row
/// whose line is zero as a row without a line.
#[verifier::external_body]
fn find_location(loader: &Loader, pc: u64) -> (found: Result<Option<LineEntry>, ()>)
    requires
        pc < u64::MAX,
    ensures
        found matches Ok(Some(entry)) ==> line_table(*loader).contains_key(pc) && line_table(
            *loader,
        )[pc] == entry@ && entry.line != Some(0u32),
        found matches Ok(None) ==> !line_table(*loader).contains_key(pc),
{
    match loader.find_location(pc) {
        Ok(Some(location)) => Ok(Some(LineEntry {
            file: location.file.map(|name| name.to_string()),
            line: location.line,
        })),
        Ok(None) => Ok(None),
        Err(_) => Err(()),
    }
}

/// The source location that a lookup in the line tables amounts to: the
/// file and the 1-based line where the entry has both, and none where no
/// entry covers the address or the entry lacks either.
pub open spec fn spec_location(found: Option<LineEntry>) -> Option<(String, u32)> {
    match found {
        Some(LineEntry { file: Some(file), line: Some(line) }) => Some((file, line)),
        _ => None,
    }
}

/// A source location with the file name as a sequence of characters.
pub open spec fn location_view(resolved: Option<(String, u32)>) -> Option<(Seq<char>, u32)> {
    match resolved {
        Some((file, line)) => Some((file@, line)),
        None => None,
    }
}

/// The source location that one entry of a line table amounts to: its file
/// and line where it has both.
pub open spec fn entry_location(entry: LineEntryView) -> Option<(Seq<char>, u32)> {
    match (entry.file, entry.line) {
        (Some(file), Some(line)) => Some((file, line)),
        _ => None,
    }
}

/// The source location of `pc` by the line tables `table`: that of the
/// entry that covers `pc`, and none where no entry does. The last address
/// is covered by no entry.
pub open spec fn table_location(table: Map<u64, LineEntryView>, pc: u64) -> Option<
    (Seq<char>, u32),
> {
    if pc < u64::MAX && table.contains_key(pc) {
        entry_location(table[pc])
    } else {
        None
    }
}

/// The source location that a lookup in the line tables amounts to.
///
/// An address that no entry covers has no location; that is an answer, not
/// a failure.
pub fn location(found: Option<LineEntry>) -> (resolved: Option<(String, u32)>)
    ensures
        resolved == spec_location(found),
        found is None ==> resolved is None,
        found matches Some(entry) ==> location_view(resolved) == entry_location(entry@),
{
    match found {
        Some(entry) => match entry.file {
            Some(file) => match entry.line {
                Some(line) => Some((file, line)),
                None => None,
            },
            None => None,
        },
        None => None,
    }
}

/// The resolver of one executable's addresses.
pub struct SourceCodeLocator {
    loader: Loader,
}

impl View for SourceCodeLocator {
    type V = Map<u64, LineEntryView>;

    /// The line tables that the resolver answers from.
    closed spec fn view(&self) -> Map<u64, LineEntryView> {
        line_table(self.loader)
    }
}

impl SourceCodeLocator {
    /// Loads the debug information of the executable at `debuggee_path`.
    ///
    /// Whether the file can be read and parsed is for the loader to decide;
    /// where it cannot, the error is `DebugInfo`.
    pub fn new(debuggee_path: &str) -> (loaded: Result<SourceCodeLocator, DebuggerError>)
        ensures
            loaded matches Err(e) ==> e == DebuggerError::DebugInfo,
    {
        match load(debuggee_path) {
            Ok(loader) => Ok(SourceCodeLocator { loader }),
            Err(_) => Err(DebuggerError::DebugInfo),
        }
    }

    /// The file and the 1-based line that `pc` was compiled from, if the
    /// line tables name both.
    ///
    /// An answer is the location of `pc` by the resolver's line tables: the
    /// file and line of the entry that covers `pc`, where it has both, and
    /// no location where no entry covers `pc` or the entry lacks either.
    /// The same address gets the same answer every time. No entry of a line
    /// table reaches the last address, which therefore has no location.
    ///
    /// The one failure is the loader's, on a table that it cannot parse:
    /// `DebugInfo`.
    pub fn get_source_location(&self, pc: u64) -> (resolved: Result<
        Option<(String, u32)>,
        DebuggerError,
    >)
        ensures
            resolved matches Ok(found) ==> location_view(found) == table_location(self@, pc),
            pc == u64::MAX ==> resolved == Ok::<Option<(String, u32)>, DebuggerError>(None),
            resolved matches Ok(Some(found)) ==> found.1 >= 1,
            resolved matches Err(e) ==> e == DebuggerError::DebugInfo,
    {
        if pc == u64::MAX {
            return Ok(None);
        }
        match find_location(&self.loader, pc) {
            Ok(found) => Ok(location(found)),
            Err(_) => Err(DebuggerError::DebugInfo),
        }
    }
}

} // verus!
