//! What the compiler driver decides: which stage to stop after, and the
//! names of the files that each stage writes.
use vstd::prelude::*;
use vstd::string::StringExecFns;
use vstd::utf8::*;
use crate::span::bytes_of;

verus! {

/// The stage after which the driver stops.
#[derive(Clone, Copy, Debug, PartialEq, Eq, Structural)]
pub enum Stage {
    Lex,
    Parse,
    Codegen,
}

/// The driver's command line: a C source file and one stage flag.
#[derive(Clone, Debug)]
pub struct Command {
    c_source_file: String,
    lex: bool,
    parse: bool,
    codegen: bool,
}

impl Command {
    pub closed spec fn spec_file(&self) -> Seq<char> {
        self.c_source_file@
    }

    /// The three stage flags, in the order lex, parse, codegen.
    pub closed spec fn spec_flags(&self) -> (bool, bool, bool) {
        (self.lex, self.parse, self.codegen)
    }

    pub fn new(c_source_file: String, lex: bool, parse: bool, codegen: bool) -> (r: Self)
        ensures
            r.spec_file() == c_source_file@,
            r.spec_flags() == (lex, parse, codegen),
    {
        Command { c_source_file, lex, parse, codegen }
    }

    /// The lex, parse and codegen flags, in that order.
    pub fn flags(&self) -> (r: (bool, bool, bool))
        ensures
            r == self.spec_flags(),
    {
        (self.lex, self.parse, self.codegen)
    }

    pub fn c_source_file(&self) -> (r: &str)
        ensures
            r@ == self.spec_file(),
    {
        self.c_source_file.as_str()
    }

    /// The stage to stop after: the one whose flag is set, or `None` unless
    /// exactly one flag is set.
    pub fn stage(&self) -> (r: Option<Stage>)
        ensures
            r == (match self.spec_flags() {
                (true, false, false) => Some(Stage::Lex),
                (false, true, false) => Some(Stage::Parse),
                (false, false, true) => Some(Stage::Codegen),
                _ => None::<Stage>,
            }),
    {
        match (self.lex, self.parse, self.codegen) {
            (true, false, false) => Some(Stage::Lex),
            (false, true, false) => Some(Stage::Parse),
            (false, false, true) => Some(Stage::Codegen),
            _ => None,
        }
    }
}

/// Byte offset of the last `.` in `b`.
pub open spec fn last_dot(b: Seq<u8>) -> Option<int>
    decreases b.len(),
{
    if b.len() == 0 {
        None
    } else if b.last() == 46u8 {
        Some(b.len() - 1)
    } else {
        last_dot(b.drop_last())
    }
}

/// Byte offset of the last `.` in `path`.
pub fn last_dot_index(path: &str) -> (r: Option<usize>)
    ensures
        r matches Some(i) ==> last_dot(bytes_of(path)) == Some(i as int),
        r is None ==> last_dot(bytes_of(path)) is None,
{
    let b = path.as_bytes();
    let mut i: usize = b.len();
    assert(b@.subrange(0, i as int) =~= b@);
    while i > 0
        invariant
            i <= b@.len(),
            b@ == bytes_of(path),
            last_dot(b@) == last_dot(b@.subrange(0, i as int)),
        decreases i,
    {
        assert(b@.subrange(0, i as int).drop_last() =~= b@.subrange(0, i as int - 1));
        if b[i - 1] == 46u8 {
            return Some(i - 1);
        }
        i = i - 1;
    }
    None
}

proof fn lemma_last_dot_in_range(b: Seq<u8>)
    ensures
        last_dot(b) matches Some(i) ==> 0 <= i < b.len() && b[i] == 46u8,
    decreases b.len(),
{
    if b.len() > 0 && b.last() != 46u8 {
        lemma_last_dot_in_range(b.drop_last());
    }
}

/// The part of `path` before its last `.`, which must be there.
pub fn file_stem(path: &str) -> (r: Option<&str>)
    ensures
        r is None <==> last_dot(bytes_of(path)) is None,
        r matches Some(s) ==> bytes_of(s) == bytes_of(path).subrange(
            0,
            last_dot(bytes_of(path)).unwrap(),
        ),
        r matches Some(s) ==> s@ == decode_utf8(
            bytes_of(path).subrange(0, last_dot(bytes_of(path)).unwrap()),
        ),
{
    match last_dot_index(path) {
        Some(i) => {
            proof {
                lemma_last_dot_in_range(bytes_of(path));
                encode_utf8_valid_utf8(path@);
                is_char_boundary_iff_not_is_continuation_byte(bytes_of(path), i as int);
            }
            let (stem, _) = path.split_at(i);
            proof {
                encode_utf8_decode_utf8(stem@);
            }
            Some(stem)
        },
        None => None,
    }
}

/// `path` with everything from its last `.` on replaced by `ext`.
pub fn with_extension(path: &str, ext: &str) -> (r: Option<String>)
    ensures
        r is None <==> last_dot(bytes_of(path)) is None,
        r matches Some(s) ==> s@ == decode_utf8(
            bytes_of(path).subrange(0, last_dot(bytes_of(path)).unwrap()),
        ) + ext@,
{
    match file_stem(path) {
        Some(stem) => Some(stem.to_owned().concat(ext)),
        None => None,
    }
}

/// The file the preprocessor writes for `input_file`: its `.i` sibling.
pub fn preprocessed_file(input_file: &str) -> (r: Option<String>)
    ensures
        r is None <==> last_dot(bytes_of(input_file)) is None,
        r matches Some(s) ==> s@ == decode_utf8(
            bytes_of(input_file).subrange(0, last_dot(bytes_of(input_file)).unwrap()),
        ) + ".i"@,
{
    with_extension(input_file, ".i")
}

/// The assembly file compiled from `preprocessed_file`: its `.s` sibling.
pub fn assembly_file(preprocessed_file: &str) -> (r: Option<String>)
    ensures
        r is None <==> last_dot(bytes_of(preprocessed_file)) is None,
        r matches Some(s) ==> s@ == decode_utf8(
            bytes_of(preprocessed_file).subrange(0, last_dot(bytes_of(preprocessed_file)).unwrap()),
        ) + ".s"@,
{
    with_extension(preprocessed_file, ".s")
}

/// The executable linked from `assembly_file`: the name without extension.
pub fn executable_file(assembly_file: &str) -> (r: Option<&str>)
    ensures
        r is None <==> last_dot(bytes_of(assembly_file)) is None,
        r matches Some(s) ==> bytes_of(s) == bytes_of(assembly_file).subrange(
            0,
            last_dot(bytes_of(assembly_file)).unwrap(),
        ),
{
    file_stem(assembly_file)
}

} // verus!
