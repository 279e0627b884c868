//! The values that travel between the server, the consumer and the caller.

use crate::error::StreamError;
use crate::text::{decimal, decimal_of};
use vstd::prelude::*;
use vstd::string::{StrSliceExecFns, StringExecFns};

verus! {

/// Identifies a block on some view of the chain.
#[derive(Clone, Debug, PartialEq, Eq)]
pub struct BlockRef {
    pub number: u64,
    pub hash: Vec<u8>,
}

/// A block together with the time it was produced, in seconds since the epoch.
#[derive(Clone, Debug, PartialEq, Eq)]
pub struct Clock {
    pub block: BlockRef,
    pub timestamp: u64,
}

/// Opaque resumption token issued by the server. The consumer forwards it and
/// never looks inside.
#[derive(Clone, Debug, PartialEq, Eq)]
pub struct Cursor {
    pub token: String,
}

impl View for Cursor {
    type V = Seq<char>;

    open spec fn view(&self) -> Seq<char> {
        self.token@
    }
}

impl Cursor {
    /// Wraps a token received from the server or read back from storage.
    pub fn new(token: String) -> (c: Cursor)
        ensures
            c.token == token,
            c@ == token@,
    {
        Cursor { token }
    }

    /// The token as text, for storage.
    pub fn as_str(&self) -> (s: &str)
        ensures
            s@ == self@,
    {
        self.token.as_str()
    }

    /// An equal cursor that the caller owns.
    pub fn duplicate(&self) -> (c: Cursor)
        ensures
            c == *self,
    {
        Cursor { token: self.token.clone() }
    }
}

/// A typed payload: what one module computed for one block.
#[derive(Clone, Debug, PartialEq, Eq)]
pub struct Output {
    pub type_tag: String,
    pub payload: Vec<u8>,
}

/// The result computed for one block along the current view of the chain.
#[derive(Clone, Debug, PartialEq, Eq)]
pub struct BlockScopedData {
    pub clock: Clock,
    pub cursor: Cursor,
    pub output: Output,
}

/// Notice that every effect of a block above `last_valid_block` is void.
#[derive(Clone, Debug, PartialEq, Eq)]
pub struct BlockUndoSignal {
    pub last_valid_cursor: Cursor,
    pub last_valid_block: BlockRef,
}

/// A classified message of the stream.
#[derive(Clone, Debug, PartialEq, Eq)]
pub enum BlockResponse {
    New(BlockScopedData),
    Undo(BlockUndoSignal),
}

impl BlockResponse {
    /// The cursor that marks the position just after this message.
    pub open spec fn cursor_of(self) -> Cursor {
        match self {
            BlockResponse::New(data) => data.cursor,
            BlockResponse::Undo(undo) => undo.last_valid_cursor,
        }
    }

    /// The cursor to persist once this message has been applied.
    pub fn cursor(&self) -> (c: &Cursor)
        ensures
            *c == self.cursor_of(),
    {
        match self {
            BlockResponse::New(data) => &data.cursor,
            BlockResponse::Undo(undo) => &undo.last_valid_cursor,
        }
    }
}

/// Where a session starts: after a cursor, or at a block number.
#[derive(Clone, Debug, PartialEq, Eq)]
pub enum ResumePoint {
    Cursor(Cursor),
    StartBlock(u64),
}

/// What is sent once per connection attempt, apart from the module graph,
/// which the caller attaches by reference.
#[derive(Clone, Debug, PartialEq, Eq)]
pub struct SessionRequest {
    pub output_module: String,
    pub start: ResumePoint,
    /// Zero means unbounded.
    pub stop_block: u64,
}

/// A message as it arrives, before classification. On the wire every nested
/// part is optional.
#[derive(Clone, Debug, PartialEq, Eq)]
pub enum RawMessage {
    Data { clock: Option<Clock>, cursor: String, output: Option<Output> },
    Undo { last_valid_cursor: String, last_valid_block: Option<BlockRef> },
    /// Session notices and progress reports, which carry no block data.
    Notice,
}

/// The connection descriptor: where the service is, and who asks.
#[derive(Clone, Debug, PartialEq, Eq)]
pub struct Endpoint {
    pub address: String,
    pub credential: Option<String>,
}

impl Endpoint {
    /// A descriptor for `address`. An empty `token` means that there is no
    /// credential.
    pub fn new(address: String, token: String) -> (e: Endpoint)
        ensures
            e.address == address,
            e.credential == if token@.len() == 0 {
                None
            } else {
                Some(token)
            },
    {
        let credential = if token.as_str().is_empty() {
            None
        } else {
            Some(token)
        };
        Endpoint { address, credential }
    }
}

/// Where a module-graph package is read from.
#[derive(Clone, Copy, Debug, PartialEq, Eq, Structural)]
pub enum PackageSource {
    /// Fetched over HTTP or HTTPS.
    Url,
    /// Read from the local file system.
    File,
}

/// Whether `input` begins with `http://`.
pub open spec fn has_plain_scheme(input: Seq<char>) -> bool {
    input.len() >= 7 && input[0] == 'h' && input[1] == 't' && input[2] == 't' && input[3] == 'p'
        && input[4] == ':' && input[5] == '/' && input[6] == '/'
}

/// Whether `input` begins with `https://`.
pub open spec fn has_secure_scheme(input: Seq<char>) -> bool {
    input.len() >= 8 && input[0] == 'h' && input[1] == 't' && input[2] == 't' && input[3] == 'p'
        && input[4] == 's' && input[5] == ':' && input[6] == '/' && input[7] == '/'
}

/// Whether `input` is an HTTP or HTTPS URL: it begins with `http://` or with
/// `https://`, in lower case.
pub open spec fn is_http_url(input: Seq<char>) -> bool {
    has_plain_scheme(input) || has_secure_scheme(input)
}

/// Tells a URL from a file path. Whatever begins with `http://` or `https://`
/// is a URL; everything else is a path, also where it begins with the
/// letters `http`.
pub fn package_source(input: &str) -> (source: PackageSource)
    ensures
        source == if is_http_url(input@) {
            PackageSource::Url
        } else {
            PackageSource::File
        },
{
    let len: usize = input.unicode_len();
    if len < 7 || input.get_char(0) != 'h' || input.get_char(1) != 't' || input.get_char(2) != 't'
        || input.get_char(3) != 'p' {
        return PackageSource::File;
    }
    let fifth = input.get_char(4);
    let plain = fifth == ':' && input.get_char(5) == '/' && input.get_char(6) == '/';
    let secure = len >= 8 && fifth == 's' && input.get_char(5) == ':' && input.get_char(6) == '/'
        && input.get_char(7) == '/';
    if plain || secure {
        PackageSource::Url
    } else {
        PackageSource::File
    }
}

/// Whether one of `names` reads `name`.
pub open spec fn names_module(names: Seq<String>, name: Seq<char>) -> bool {
    exists|i: int| 0 <= i < names.len() && #[trigger] names[i]@ == name
}

/// The named processing modules of a package and the one whose output is
/// streamed. The output module is always one of the named modules.
#[derive(Clone, Debug, PartialEq, Eq)]
pub struct ModuleGraph {
    pub module_names: Vec<String>,
    pub output_module: String,
}

impl ModuleGraph {
    /// Validity: the output module is one of the named modules.
    pub open spec fn wf(self) -> bool {
        names_module(self.module_names@, self.output_module@)
    }

    /// Builds a graph. An output module that the graph does not name is an
    /// invalid request, reported with the module's name.
    pub fn new(module_names: Vec<String>, output_module: String) -> (r: Result<
        ModuleGraph,
        StreamError,
    >)
        ensures
            r == if names_module(module_names@, output_module@) {
                Ok::<ModuleGraph, StreamError>(ModuleGraph { module_names, output_module })
            } else {
                Err::<ModuleGraph, StreamError>(StreamError::InvalidRequest(output_module))
            },
            r is Ok ==> r.unwrap().wf(),
    {
        let graph = ModuleGraph { module_names, output_module };
        if graph.has_module(&graph.output_module) {
            Ok(graph)
        } else {
            Err(StreamError::InvalidRequest(graph.output_module))
        }
    }

    /// Whether the graph names a module `name`.
    pub fn has_module(&self, name: &String) -> (b: bool)
        ensures
            b == names_module(self.module_names@, name@),
    {
        let mut i: usize = 0;
        while i < self.module_names.len()
            invariant
                i <= self.module_names.len(),
                forall|j: int| 0 <= j < i ==> (#[trigger] self.module_names@[j])@ != name@,
            decreases self.module_names.len() - i,
        {
            if self.module_names[i] == *name {
                return true;
            }
            i = i + 1;
        }
        false
    }

    /// How many modules the graph names.
    pub fn module_count(&self) -> (n: usize)
        ensures
            n == self.module_names@.len(),
    {
        self.module_names.len()
    }
}

/// A range of block numbers, from `start_block` up to `end_block`.
#[derive(Clone, Copy, Debug, PartialEq, Eq, Structural)]
pub struct BlockRange {
    pub start_block: u64,
    pub end_block: u64,
}

impl BlockRange {
    /// The text of the range: both numbers in decimal, joined by a hyphen,
    /// in parentheses.
    pub open spec fn text_of(self) -> Seq<char> {
        "("@ + decimal_of(self.start_block as nat) + "-"@ + decimal_of(self.end_block as nat)
            + ")"@
    }

    /// The range as text, such as `(10-13)`.
    pub fn to_text(&self) -> (text: String)
        ensures
            text@ == self.text_of(),
    {
        let mut text = String::from_str("(");
        let start = decimal(self.start_block);
        text.append(start.as_str());
        text.append("-");
        let end = decimal(self.end_block);
        text.append(end.as_str());
        text.append(")");
        text
    }
}

} // verus!
