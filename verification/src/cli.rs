//! What the command line asks for.
//!
//! The program takes `--source=` with the path of the mesh to read and
//! `--output=` with the path of the image to write; `--help` asks for the
//! usage text. Everything here works on the arguments' bytes and on what the
//! caller has found out about the two paths; nothing here touches the file
//! system.
use vstd::prelude::*;

verus! {

/// The byte `=`, which ends a value.
pub const EQUALS: u8 = 61;

/// The length of `--source=` and of `--output=`.
pub const PREFIX_LENGTH: usize = 9;

/// The bytes of `--help`.
pub open spec fn help_flag() -> Seq<u8> {
    seq![45u8, 45u8, 104u8, 101u8, 108u8, 112u8]
}

/// The bytes of `--source=`.
pub open spec fn source_prefix() -> Seq<u8> {
    seq![45u8, 45u8, 115u8, 111u8, 117u8, 114u8, 99u8, 101u8, 61u8]
}

/// The bytes of `--output=`.
pub open spec fn output_prefix() -> Seq<u8> {
    seq![45u8, 45u8, 111u8, 117u8, 116u8, 112u8, 117u8, 116u8, 61u8]
}

/// The bytes of `obj`, the extension of a mesh file.
pub open spec fn source_extension() -> Seq<u8> {
    seq![111u8, 98u8, 106u8]
}

/// The bytes of `ppm`, the extension of an image file.
pub open spec fn output_extension() -> Seq<u8> {
    seq![112u8, 112u8, 109u8]
}

/// Whether `arg` begins with `prefix`.
pub open spec fn starts_with(arg: Seq<u8>, prefix: Seq<u8>) -> bool {
    prefix.len() <= arg.len() && arg.subrange(0, prefix.len() as int) == prefix
}

/// Where the value that begins at `from` ends: at the next `=`, or at the
/// end of the argument.
pub open spec fn value_end(arg: Seq<u8>, from: int) -> int
    decreases arg.len() - from,
{
    if from < 0 || from >= arg.len() {
        arg.len() as int
    } else if arg[from] == EQUALS {
        from
    } else {
        value_end(arg, from + 1)
    }
}

/// A range of bytes inside an argument.
#[derive(Clone, Copy, Debug, PartialEq, Eq, Structural)]
pub struct Span {
    pub start: usize,
    pub end: usize,
}

/// What one argument says.
#[derive(Clone, Copy, Debug, PartialEq, Eq, Structural)]
pub enum Argument {
    /// It is `--help`.
    Help,
    /// It begins with `--source=`; the span is where its value stands.
    Source(Span),
    /// It begins with `--output=`; the span is where its value stands.
    Output(Span),
    /// It is none of these and is passed over.
    Other,
}

/// What the caller has found out about the value of an argument: the
/// extension of the path it names, if it has one, and whether a file of
/// that path exists.
#[derive(Clone, Debug)]
pub struct PathFacts {
    pub extension: Option<Vec<u8>>,
    pub exists: bool,
}

/// The value of an argument that was taken: which argument, and where in
/// it the value stands.
#[derive(Clone, Copy, Debug, PartialEq, Eq, Structural)]
pub struct Chosen {
    pub argument: usize,
    pub value: Span,
}

/// The paths taken so far. A later argument replaces an earlier one of the
/// same kind.
#[derive(Clone, Copy, Debug, PartialEq, Eq, Structural)]
pub struct Selection {
    pub source: Option<Chosen>,
    pub output: Option<Chosen>,
}

/// Why the program does not go on to render.
#[derive(Clone, Copy, Debug, PartialEq, Eq, Structural)]
pub enum Refusal {
    /// The usage text was asked for.
    Help,
    /// The source path does not end in `.obj`.
    SourceFormat,
    /// No file exists at the source path.
    SourceMissing,
    /// The output path does not end in `.ppm`.
    OutputFormat,
    /// The source, the output or both were not given.
    Incomplete,
}

/// The value span of an argument that begins with one of the two prefixes.
pub open spec fn value_span(arg: Seq<u8>) -> Span {
    Span { start: PREFIX_LENGTH, end: value_end(arg, PREFIX_LENGTH as int) as usize }
}

/// What an argument says.
pub open spec fn classify_spec(arg: Seq<u8>) -> Argument {
    if arg == help_flag() {
        Argument::Help
    } else if starts_with(arg, source_prefix()) {
        Argument::Source(value_span(arg))
    } else if starts_with(arg, output_prefix()) {
        Argument::Output(value_span(arg))
    } else {
        Argument::Other
    }
}

impl PathFacts {
    /// Whether the path has the given extension.
    pub open spec fn has_extension(self, expected: Seq<u8>) -> bool {
        self.extension matches Some(found) && found@ == expected
    }
}

/// What one argument does to the selection: `--help` ends the run at once;
/// a source is taken if its path ends in `.obj` and names a file that
/// exists, and is refused for the first of the two that fails; an output is
/// taken if its path ends in `.ppm`; anything else changes nothing.
pub open spec fn step_spec(selection: Selection, index: int, arg: Seq<u8>, facts: PathFacts) -> Result<
    Selection,
    Refusal,
> {
    match classify_spec(arg) {
        Argument::Help => Err(Refusal::Help),
        Argument::Source(value) => if !facts.has_extension(source_extension()) {
            Err(Refusal::SourceFormat)
        } else if !facts.exists {
            Err(Refusal::SourceMissing)
        } else {
            Ok(
                Selection {
                    source: Some(Chosen { argument: index as usize, value }),
                    output: selection.output,
                },
            )
        },
        Argument::Output(value) => if !facts.has_extension(output_extension()) {
            Err(Refusal::OutputFormat)
        } else {
            Ok(
                Selection {
                    source: selection.source,
                    output: Some(Chosen { argument: index as usize, value }),
                },
            )
        },
        Argument::Other => Ok(selection),
    }
}

/// The selection after the first `n` arguments, taken in order, or the
/// refusal of the first argument that is refused.
pub open spec fn run_spec(args: Seq<Vec<u8>>, facts: Seq<PathFacts>, n: nat) -> Result<
    Selection,
    Refusal,
>
    decreases n,
{
    if n == 0 {
        Ok(Selection { source: None, output: None })
    } else {
        match run_spec(args, facts, (n - 1) as nat) {
            Err(refusal) => Err(refusal),
            Ok(selection) => step_spec(selection, n - 1, args[n - 1]@, facts[n - 1]),
        }
    }
}

/// The two paths of a complete selection, the source first.
pub open spec fn finish_spec(selection: Selection) -> Result<(Chosen, Chosen), Refusal> {
    match (selection.source, selection.output) {
        (Some(source), Some(output)) => Ok((source, output)),
        _ => Err(Refusal::Incomplete),
    }
}

/// What the whole command line asks for.
pub open spec fn parse_args_spec(args: Seq<Vec<u8>>, facts: Seq<PathFacts>) -> Result<
    (Chosen, Chosen),
    Refusal,
> {
    match run_spec(args, facts, args.len()) {
        Err(refusal) => Err(refusal),
        Ok(selection) => finish_spec(selection),
    }
}

/// The value that begins at `from` holds no `=`, and it ends at one or at
/// the end of the argument.
pub proof fn lemma_value_end(arg: Seq<u8>, from: int)
    requires
        0 <= from <= arg.len(),
    ensures
        from <= value_end(arg, from) <= arg.len(),
        forall|i: int| from <= i < value_end(arg, from) ==> arg[i] != EQUALS,
        value_end(arg, from) == arg.len() || arg[value_end(arg, from)] == EQUALS,
    decreases arg.len() - from,
{
    if from < arg.len() && arg[from] != EQUALS {
        lemma_value_end(arg, from + 1);
    }
}

/// Whether the bytes are exactly the expected ones.
fn is_exactly(bytes: &[u8], expected: &[u8]) -> (r: bool)
    ensures
        r == (bytes@ == expected@),
{
    if bytes.len() != expected.len() {
        return false;
    }
    let mut i: usize = 0;
    while i < bytes.len()
        invariant
            i <= bytes@.len(),
            bytes@.len() == expected@.len(),
            forall|j: int| 0 <= j < i ==> bytes@[j] == expected@[j],
        decreases bytes@.len() - i,
    {
        if bytes[i] != expected[i] {
            return false;
        }
        i = i + 1;
    }
    assert(bytes@ =~= expected@);
    true
}

/// Whether the bytes begin with the expected ones.
fn begins_with(bytes: &[u8], expected: &[u8]) -> (r: bool)
    ensures
        r == starts_with(bytes@, expected@),
{
    if bytes.len() < expected.len() {
        return false;
    }
    let mut i: usize = 0;
    while i < expected.len()
        invariant
            i <= expected@.len(),
            expected@.len() <= bytes@.len(),
            forall|j: int| 0 <= j < i ==> bytes@[j] == expected@[j],
        decreases expected@.len() - i,
    {
        if bytes[i] != expected[i] {
            assert(bytes@.subrange(0, expected@.len() as int)[i as int] == bytes@[i as int]);
            return false;
        }
        i = i + 1;
    }
    assert(bytes@.subrange(0, expected@.len() as int) =~= expected@);
    true
}

/// Finds where the value that begins at `from` ends.
fn find_value_end(arg: &[u8], from: usize) -> (end: usize)
    requires
        from <= arg@.len(),
    ensures
        end == value_end(arg@, from as int),
        from <= end <= arg@.len(),
{
    let mut end: usize = from;
    while end < arg.len() && arg[end] != EQUALS
        invariant
            from <= end <= arg@.len(),
            value_end(arg@, from as int) == value_end(arg@, end as int),
        decreases arg@.len() - end,
    {
        end = end + 1;
    }
    end
}

/// Says what one argument is, and where its value stands if it has one.
pub fn classify(arg: &[u8]) -> (r: Argument)
    ensures
        r == classify_spec(arg@),
        match r {
            Argument::Help => arg@ == help_flag(),
            Argument::Source(value) => starts_with(arg@, source_prefix()) && value.start
                == PREFIX_LENGTH && value.start <= value.end <= arg@.len(),
            Argument::Output(value) => starts_with(arg@, output_prefix()) && value.start
                == PREFIX_LENGTH && value.start <= value.end <= arg@.len(),
            Argument::Other => arg@ != help_flag() && !starts_with(arg@, source_prefix())
                && !starts_with(arg@, output_prefix()),
        },
        match r {
            Argument::Source(value) | Argument::Output(value) => (forall|i: int|
                value.start <= i < value.end ==> arg@[i] != EQUALS) && (value.end == arg@.len()
                || arg@[value.end as int] == EQUALS),
            _ => true,
        },
{
    proof {
        if PREFIX_LENGTH <= arg@.len() {
            lemma_value_end(arg@, PREFIX_LENGTH as int);
        }
    }
    let help: [u8; 6] = [45, 45, 104, 101, 108, 112];
    let source: [u8; 9] = [45, 45, 115, 111, 117, 114, 99, 101, 61];
    let output: [u8; 9] = [45, 45, 111, 117, 116, 112, 117, 116, 61];
    assert(help@ =~= help_flag());
    assert(source@ =~= source_prefix());
    assert(output@ =~= output_prefix());
    if is_exactly(arg, help.as_slice()) {
        Argument::Help
    } else if begins_with(arg, source.as_slice()) {
        Argument::Source(Span { start: PREFIX_LENGTH, end: find_value_end(arg, PREFIX_LENGTH) })
    } else if begins_with(arg, output.as_slice()) {
        Argument::Output(Span { start: PREFIX_LENGTH, end: find_value_end(arg, PREFIX_LENGTH) })
    } else {
        Argument::Other
    }
}

/// Whether the facts name exactly the expected extension.
fn extension_is(facts: &PathFacts, expected: &[u8]) -> (r: bool)
    ensures
        r == facts.has_extension(expected@),
{
    match &facts.extension {
        Some(found) => is_exactly(found.as_slice(), expected),
        None => false,
    }
}

impl Selection {
    /// The selection in which nothing has been taken yet.
    pub fn new() -> (r: Selection)
        ensures
            r == (Selection { source: None, output: None }),
    {
        Selection { source: None, output: None }
    }

    /// Takes argument number `index` into account.
    pub fn accept(self, index: usize, arg: &[u8], facts: &PathFacts) -> (r: Result<
        Selection,
        Refusal,
    >)
        ensures
            r == step_spec(self, index as int, arg@, *facts),
    {
        let obj: [u8; 3] = [111, 98, 106];
        let ppm: [u8; 3] = [112, 112, 109];
        assert(obj@ =~= source_extension());
        assert(ppm@ =~= output_extension());
        match classify(arg) {
            Argument::Help => Err(Refusal::Help),
            Argument::Source(value) => {
                if !extension_is(facts, obj.as_slice()) {
                    Err(Refusal::SourceFormat)
                } else if !facts.exists {
                    Err(Refusal::SourceMissing)
                } else {
                    Ok(
                        Selection {
                            source: Some(Chosen { argument: index, value }),
                            output: self.output,
                        },
                    )
                }
            },
            Argument::Output(value) => {
                if !extension_is(facts, ppm.as_slice()) {
                    Err(Refusal::OutputFormat)
                } else {
                    Ok(
                        Selection {
                            source: self.source,
                            output: Some(Chosen { argument: index, value }),
                        },
                    )
                }
            },
            Argument::Other => Ok(self),
        }
    }

    /// The two paths, if both were taken.
    pub fn finish(self) -> (r: Result<(Chosen, Chosen), Refusal>)
        ensures
            r == finish_spec(self),
    {
        match (self.source, self.output) {
            (Some(source), Some(output)) => Ok((source, output)),
            _ => Err(Refusal::Incomplete),
        }
    }
}

/// Goes through the arguments in order, each with what is known of its
/// value, and gives the two paths or the reason not to render.
pub fn parse_args(args: &Vec<Vec<u8>>, facts: &Vec<PathFacts>) -> (r: Result<
    (Chosen, Chosen),
    Refusal,
>)
    requires
        args@.len() == facts@.len(),
    ensures
        r == parse_args_spec(args@, facts@),
{
    let mut selection: Selection = Selection::new();
    let mut i: usize = 0;
    while i < args.len()
        invariant
            i <= args@.len(),
            args@.len() == facts@.len(),
            run_spec(args@, facts@, i as nat) == Ok::<Selection, Refusal>(selection),
        decreases args@.len() - i,
    {
        match selection.accept(i, args[i].as_slice(), &facts[i]) {
            Ok(next) => {
                selection = next;
            },
            Err(refusal) => {
                proof {
                    lemma_refusal_stays(args@, facts@, (i + 1) as nat, args@.len());
                }
                return Err(refusal);
            },
        }
        i = i + 1;
    }
    selection.finish()
}

/// Once an argument has been refused, the arguments after it change
/// nothing.
pub proof fn lemma_refusal_stays(args: Seq<Vec<u8>>, facts: Seq<PathFacts>, n: nat, m: nat)
    requires
        n <= m,
        run_spec(args, facts, n) is Err,
    ensures
        run_spec(args, facts, m) == run_spec(args, facts, n),
    decreases m,
{
    if n < m {
        lemma_refusal_stays(args, facts, n, (m - 1) as nat);
    }
}

/// The status with which the program ends after a refusal: zero where the
/// usage text was asked for, one for every fault of the command line.
pub fn exit_status(refusal: Refusal) -> (r: i32)
    ensures
        r == (if refusal == Refusal::Help {
            0i32
        } else {
            1i32
        }),
{
    match refusal {
        Refusal::Help => 0,
        _ => 1,
    }
}

} // verus!
