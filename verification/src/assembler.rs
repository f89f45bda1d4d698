//! The assembler: source text to a sequence of instructions, in two passes.
//! The first binds each label to the slot of the instruction that follows
//! it; the second reads the statements, and stops at the first line that is
//! wrong.

use crate::isa::{AssemblerError, AssemblerErrorView, Opcode, Operand};
use crate::symbols::SymbolTable;
use crate::syntax::{opcode_of, operand_of, read_opcode, read_operand};
use crate::text::{
    code_length, code_part, cut, line_spans, lines, spans_within, to_chars, word_spans, words,
};
use vstd::prelude::*;
use vstd::slice::slice_subrange;
use vstd::string::StrSliceExecFns;

verus! {

/// The words of `line`, its comment left out.
pub open spec fn line_words(line: Seq<char>) -> Seq<Seq<char>> {
    words(code_part(line))
}

/// Whether `line` opens with a label: a first word that ends in a colon.
pub open spec fn has_label(line: Seq<char>) -> bool {
    let first = line_words(line);
    first.len() > 0 && first[0].len() > 0 && first[0].last() == ':'
}

/// `word` without the colons at its end.
pub open spec fn without_colons(word: Seq<char>) -> Seq<char>
    decreases word.len(),
{
    if word.len() > 0 && word.last() == ':' {
        without_colons(word.drop_last())
    } else {
        word
    }
}

/// The name of the label that `line` opens with.
pub open spec fn label(line: Seq<char>) -> Seq<char> {
    without_colons(line_words(line)[0])
}

/// The statement of `line`: its words but for the label. A line without a
/// statement takes no slot.
pub open spec fn statement(line: Seq<char>) -> Seq<Seq<char>> {
    if has_label(line) {
        line_words(line).drop_first()
    } else {
        line_words(line)
    }
}

/// The number of statements in the first `n` of `lines`.
pub open spec fn slots(lines: Seq<Seq<char>>, n: int) -> int
    decreases n,
{
    if n <= 0 {
        0
    } else if statement(lines[n - 1]).len() > 0 {
        slots(lines, n - 1) + 1
    } else {
        slots(lines, n - 1)
    }
}

/// The labels of the first `n` of `lines`, each bound to the number of
/// statements before it. A label bound twice keeps the later slot.
pub open spec fn symbols(lines: Seq<Seq<char>>, n: int) -> Map<Seq<char>, usize>
    decreases n,
{
    if n <= 0 {
        Map::empty()
    } else if has_label(lines[n - 1]) {
        symbols(lines, n - 1).insert(label(lines[n - 1]), slots(lines, n - 1) as usize)
    } else {
        symbols(lines, n - 1)
    }
}

/// The symbol table of `source`.
pub open spec fn symbol_table(source: Seq<char>) -> Map<Seq<char>, usize> {
    symbols(lines(source), lines(source).len() as int)
}

/// The instruction that `statement`, on line `line_index`, writes, or what
/// is wrong with it. In this order: more than one operand; a first word
/// that is no opcode; no operand where one is due, or an operand that does
/// not read; an operand where none is due, or one of the wrong kind.
pub open spec fn instruction_of(
    statement: Seq<Seq<char>>,
    line_index: usize,
    symbols: Map<Seq<char>, usize>,
) -> Result<(Opcode, Operand), AssemblerErrorView> {
    if statement.len() > 2 {
        Err(
            AssemblerErrorView::TooManyOperands {
                line_index,
                operands_found: (statement.len() - 1) as usize,
            },
        )
    } else {
        match opcode_of(statement[0]) {
            None => Err(AssemblerErrorView::UnknownOpcode { line_index, opcode: statement[0] }),
            Some(opcode) => if statement.len() == 1 {
                if opcode.stands_alone() {
                    Ok((opcode, Operand::Empty))
                } else {
                    match opcode {
                        Opcode::Data(v) => Ok((opcode, Operand::Immediate(v))),
                        _ => Err(AssemblerErrorView::MissingOperand { line_index, opcode }),
                    }
                }
            } else {
                match operand_of(statement[1], symbols) {
                    None => Err(
                        AssemblerErrorView::MalformedOperand { line_index, operand: statement[1] },
                    ),
                    Some(operand) => if opcode.accepts(operand) {
                        Ok((opcode, operand))
                    } else if opcode.stands_alone() || opcode is Data {
                        Err(AssemblerErrorView::RedundantOperand { line_index, opcode, operand })
                    } else {
                        Err(
                            AssemblerErrorView::IncorrectOperand {
                                line_index,
                                opcode,
                                operand_given: operand,
                                operand_type_expected: opcode.expected_kind(),
                            },
                        )
                    },
                }
            },
        }
    }
}

/// The instructions of the first `n` of `lines`, or the first error in
/// them.
pub open spec fn assembled_lines(
    lines: Seq<Seq<char>>,
    symbols: Map<Seq<char>, usize>,
    n: int,
) -> Result<Seq<(Opcode, Operand)>, AssemblerErrorView>
    decreases n,
{
    if n <= 0 {
        Ok(Seq::empty())
    } else {
        match assembled_lines(lines, symbols, n - 1) {
            Err(e) => Err(e),
            Ok(program) => if statement(lines[n - 1]).len() == 0 {
                Ok(program)
            } else {
                match instruction_of(statement(lines[n - 1]), n as usize, symbols) {
                    Ok(instruction) => Ok(program.push(instruction)),
                    Err(e) => Err(e),
                }
            },
        }
    }
}

/// What `source` assembles to: its instructions in the order of its lines,
/// or the error of the first line that is wrong.
pub open spec fn assembled(source: Seq<char>) -> Result<
    Seq<(Opcode, Operand)>,
    AssemblerErrorView,
> {
    assembled_lines(lines(source), symbol_table(source), lines(source).len() as int)
}

/// Whether each of `program` pairs an opcode with an operand that the
/// opcode is written with.
pub open spec fn well_formed(program: Seq<(Opcode, Operand)>) -> bool {
    forall|i: int| 0 <= i < program.len() ==> (#[trigger] program[i]).0.well_formed_with(program[i].1)
}

/// An assembled program has one instruction for each statement, so that
/// the slot of a label is the place, in the program, of the instruction
/// that follows the label.
pub proof fn one_instruction_per_statement(
    lines: Seq<Seq<char>>,
    symbols: Map<Seq<char>, usize>,
    n: int,
)
    requires
        0 <= n,
        assembled_lines(lines, symbols, n) is Ok,
    ensures
        assembled_lines(lines, symbols, n)->Ok_0.len() == slots(lines, n),
        0 <= slots(lines, n) <= n,
    decreases n,
{
    if n > 0 {
        one_instruction_per_statement(lines, symbols, n - 1);
    }
}

/// The line that an error of assembly names lies in the text: the error of
/// the first `n` of `lines` is of one of the kinds that a statement can
/// have, and its line number is between 1 and `n`.
pub proof fn error_names_a_line(lines: Seq<Seq<char>>, symbols: Map<Seq<char>, usize>, n: int)
    requires
        0 <= n <= usize::MAX,
        assembled_lines(lines, symbols, n) is Err,
    ensures
        assembled_lines(lines, symbols, n)->Err_0.line() is Some,
        1 <= assembled_lines(lines, symbols, n)->Err_0.line()->0 <= n,
    decreases n,
{
    if n > 0 && assembled_lines(lines, symbols, n - 1) is Err {
        error_names_a_line(lines, symbols, n - 1);
    }
}

/// An error stays: once a line is wrong, the lines behind it are not looked
/// at.
pub proof fn first_error_stays(
    lines: Seq<Seq<char>>,
    symbols: Map<Seq<char>, usize>,
    m: int,
    n: int,
)
    requires
        0 <= m <= n,
        assembled_lines(lines, symbols, m) is Err,
    ensures
        assembled_lines(lines, symbols, n) == assembled_lines(lines, symbols, m),
    decreases n - m,
{
    if m < n {
        first_error_stays(lines, symbols, m, n - 1);
    }
}

/// The assembler emits well-formed instructions only: no line gives an
/// opcode with an operand of a kind that it is not written with.
pub proof fn assembled_lines_well_formed(
    lines: Seq<Seq<char>>,
    symbols: Map<Seq<char>, usize>,
    n: int,
)
    requires
        assembled_lines(lines, symbols, n) is Ok,
    ensures
        well_formed(assembled_lines(lines, symbols, n)->Ok_0),
    decreases n,
{
    if n > 0 {
        assembled_lines_well_formed(lines, symbols, n - 1);
    }
}

/// The words of the line of `text` from `start` to `end`, as spans of
/// `text`.
fn line_word_spans(text: &[char], start: usize, end: usize) -> (spans: Vec<(usize, usize)>)
    requires
        start <= end <= text@.len(),
    ensures
        cut(text@, spans@) == line_words(text@.subrange(start as int, end as int)),
        spans_within(spans@, text@.len()),
        forall|k: int| 0 <= k < spans@.len() ==> (#[trigger] spans@[k]).0 < spans@[k].1,
{
    let line = slice_subrange(text, start, end);
    let length: usize = code_length(line);
    let code = slice_subrange(line, 0, length);
    let local = word_spans(code);
    let mut spans: Vec<(usize, usize)> = Vec::new();
    let mut k: usize = 0;
    while k < local.len()
        invariant
            k <= local.len(),
            start + length <= end,
            length == code@.len(),
            spans_within(local@, code@.len()),
            spans@.len() == k,
            forall|j: int|
                0 <= j < k ==> (#[trigger] spans@[j]) == (
                    (local@[j].0 + start) as usize,
                    (local@[j].1 + start) as usize,
                ),
        decreases local.len() - k,
    {
        let span = local[k];
        spans.push((span.0 + start, span.1 + start));
        k = k + 1;
    }
    assert(cut(text@, spans@) =~= cut(code@, local@)) by {
        assert forall|j: int| 0 <= j < spans@.len() implies cut(text@, spans@)[j] == cut(
            code@,
            local@,
        )[j] by {
            assert(text@.subrange(spans@[j].0 as int, spans@[j].1 as int) =~= code@.subrange(
                local@[j].0 as int,
                local@[j].1 as int,
            ));
        }
    }
    spans
}

/// The end of the name of the label that spans `a` to `b` of `text`.
fn label_end(text: &[char], a: usize, b: usize) -> (e: usize)
    requires
        a <= b <= text@.len(),
    ensures
        a <= e <= b,
        text@.subrange(a as int, e as int) == without_colons(text@.subrange(a as int, b as int)),
{
    let mut e: usize = b;
    while e > a && text[e - 1] == ':'
        invariant
            a <= e <= b <= text@.len(),
            without_colons(text@.subrange(a as int, e as int)) == without_colons(
                text@.subrange(a as int, b as int),
            ),
        decreases e,
    {
        assert(text@.subrange(a as int, e as int).drop_last() =~= text@.subrange(
            a as int,
            e - 1,
        ));
        e = e - 1;
    }
    e
}

/// One line of source, cut up: the span of its label's name, if it has a
/// label, and the spans of the words of its statement.
struct Scanned {
    label: Option<(usize, usize)>,
    statement: Vec<(usize, usize)>,
}

/// Cuts up the line of `text` from `start` to `end`.
fn scan(text: &[char], start: usize, end: usize) -> (scanned: Scanned)
    requires
        start <= end <= text@.len(),
    ensures
        cut(text@, scanned.statement@) == statement(text@.subrange(start as int, end as int)),
        spans_within(scanned.statement@, text@.len()),
        match scanned.label {
            Some(span) => {
                &&& has_label(text@.subrange(start as int, end as int))
                &&& span.0 <= span.1 <= text@.len()
                &&& text@.subrange(span.0 as int, span.1 as int) == label(
                    text@.subrange(start as int, end as int),
                )
            },
            None => !has_label(text@.subrange(start as int, end as int)),
        },
{
    let mut spans = line_word_spans(text, start, end);
    if spans.len() > 0 && text[spans[0].1 - 1] == ':' {
        let first = spans.remove(0);
        let e: usize = label_end(text, first.0, first.1);
        Scanned { label: Some((first.0, e)), statement: spans }
    } else {
        Scanned { label: None, statement: spans }
    }
}

/// The first pass: the symbol table of the lines of `text` that `spans`
/// mark.
fn collect_symbols(text: &[char], spans: &Vec<(usize, usize)>) -> (table: SymbolTable)
    requires
        cut(text@, spans@) == lines(text@),
        spans_within(spans@, text@.len()),
    ensures
        table@ == symbol_table(text@),
{
    let ghost all = lines(text@);
    let mut table = SymbolTable::new();
    let mut count: usize = 0;
    let mut k: usize = 0;
    while k < spans.len()
        invariant
            k <= spans.len(),
            all == lines(text@),
            cut(text@, spans@) == all,
            spans_within(spans@, text@.len()),
            count == slots(all, k as int),
            count <= k,
            table@ == symbols(all, k as int),
        decreases spans.len() - k,
    {
        let span = spans[k];
        assert(all[k as int] == text@.subrange(span.0 as int, span.1 as int));
        let scanned = scan(text, span.0, span.1);
        match scanned.label {
            Some(name) => {
                table.bind(slice_subrange(text, name.0, name.1), count);
            },
            None => {},
        }
        if scanned.statement.len() > 0 {
            count = count + 1;
        }
        k = k + 1;
    }
    table
}

/// The words by which an error names the kind of operand that `opcode`
/// asks for.
fn kind_name(opcode: Opcode) -> (name: &'static str)
    ensures
        name@ == opcode.expected_kind(),
{
    match opcode {
        Opcode::Ldm | Opcode::Ldr | Opcode::Lsl | Opcode::Lsr => "Number",
        Opcode::Ldd
        | Opcode::Ldi
        | Opcode::Ldx
        | Opcode::Sto
        | Opcode::Jmp
        | Opcode::Cmi
        | Opcode::Jpe
        | Opcode::Jpn => "Address",
        Opcode::Mov | Opcode::Inc | Opcode::Dec => "Register",
        Opcode::Add | Opcode::Sub | Opcode::Cmp | Opcode::And | Opcode::Xor | Opcode::Or => {
            "Address/Number"
        },
        Opcode::In | Opcode::Out | Opcode::End | Opcode::Data(_) => {
            proof {
                reveal_strlit("");
            }
            ""
        },
    }
}

/// The characters of `source` from `from` to `to`, as a string of their
/// own.
fn text_of(source: &str, from: usize, to: usize) -> (s: String)
    requires
        from <= to <= source@.len(),
    ensures
        s@ == source@.subrange(from as int, to as int),
{
    source.substring_char(from, to).to_owned()
}

/// Executable form of [`instruction_of`], for the statement whose words
/// `statement` marks in `text`, the characters of `source`.
fn read_statement(
    source: &str,
    text: &[char],
    statement: &Vec<(usize, usize)>,
    line_index: usize,
    symbols: &SymbolTable,
) -> (r: Result<(Opcode, Operand), AssemblerError>)
    requires
        text@ == source@,
        statement@.len() > 0,
        spans_within(statement@, text@.len()),
    ensures
        match r {
            Ok(instruction) => instruction_of(cut(text@, statement@), line_index, symbols@) == Ok::<
                (Opcode, Operand),
                AssemblerErrorView,
            >(instruction),
            Err(e) => instruction_of(cut(text@, statement@), line_index, symbols@) == Err::<
                (Opcode, Operand),
                AssemblerErrorView,
            >(e@),
        },
{
    if statement.len() > 2 {
        return Err(
            AssemblerError::TooManyOperands { line_index, operands_found: statement.len() - 1 },
        );
    }
    let head = statement[0];
    let opcode = match read_opcode(slice_subrange(text, head.0, head.1)) {
        Some(opcode) => opcode,
        None => {
            return Err(
                AssemblerError::UnknownOpcode {
                    line_index,
                    opcode: text_of(source, head.0, head.1),
                },
            );
        },
    };
    if statement.len() == 1 {
        return match opcode {
            Opcode::In | Opcode::Out | Opcode::End => Ok((opcode, Operand::Empty)),
            Opcode::Data(v) => Ok((opcode, Operand::Immediate(v))),
            _ => Err(AssemblerError::MissingOperand { line_index, opcode }),
        };
    }
    let tail = statement[1];
    let operand = match read_operand(slice_subrange(text, tail.0, tail.1), symbols) {
        Some(operand) => operand,
        None => {
            return Err(
                AssemblerError::MalformedOperand {
                    line_index,
                    operand: text_of(source, tail.0, tail.1),
                },
            );
        },
    };
    if opcode.takes(&operand) {
        return Ok((opcode, operand));
    }
    match opcode {
        Opcode::In | Opcode::Out | Opcode::End | Opcode::Data(_) => Err(
            AssemblerError::RedundantOperand { line_index, opcode, operand },
        ),
        _ => Err(
            AssemblerError::IncorrectOperand {
                line_index,
                opcode,
                operand_given: operand,
                operand_type_expected: kind_name(opcode).to_owned(),
            },
        ),
    }
}

/// The symbol table of `source`: each label with the number of statements
/// before it.
pub fn symbol_table_of(source: &str) -> (table: SymbolTable)
    ensures
        table@ == symbol_table(source@),
{
    let chars = to_chars(source);
    let spans = line_spans(chars.as_slice());
    collect_symbols(chars.as_slice(), &spans)
}

/// Assembles `source`. The result is the sequence of its instructions, each
/// well-formed, or the error of the first line that is wrong: see
/// [`assembled`]. The same source always gives the same result.
pub fn assemble(source: &str) -> (r: Result<Vec<(Opcode, Operand)>, AssemblerError>)
    ensures
        match r {
            Ok(program) => assembled(source@) == Ok::<Seq<(Opcode, Operand)>, AssemblerErrorView>(
                program@,
            ) && well_formed(program@),
            Err(e) => assembled(source@) == Err::<Seq<(Opcode, Operand)>, AssemblerErrorView>(
                e@,
            ),
        },
{
    let chars = to_chars(source);
    let text = chars.as_slice();
    let spans = line_spans(text);
    let table = collect_symbols(text, &spans);
    let ghost all = lines(text@);
    let mut program: Vec<(Opcode, Operand)> = Vec::new();
    let mut k: usize = 0;
    while k < spans.len()
        invariant
            k <= spans.len(),
            text@ == source@,
            all == lines(text@),
            cut(text@, spans@) == all,
            spans_within(spans@, text@.len()),
            table@ == symbol_table(text@),
            assembled_lines(all, table@, k as int) == Ok::<
                Seq<(Opcode, Operand)>,
                AssemblerErrorView,
            >(program@),
        decreases spans.len() - k,
    {
        let span = spans[k];
        assert(all[k as int] == text@.subrange(span.0 as int, span.1 as int));
        let scanned = scan(text, span.0, span.1);
        if scanned.statement.len() > 0 {
            match read_statement(source, text, &scanned.statement, k + 1, &table) {
                Ok(instruction) => {
                    program.push(instruction);
                },
                Err(e) => {
                    proof {
                        first_error_stays(all, table@, k + 1, all.len() as int);
                    }
                    return Err(e);
                },
            }
        }
        k = k + 1;
    }
    proof {
        assembled_lines_well_formed(all, table@, all.len() as int);
    }
    Ok(program)
}

} // verus!
