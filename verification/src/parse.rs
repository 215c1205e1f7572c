//! The two-pass assembler: pass one scans the lines for duplicate label
//! declarations, pass two emits one instruction per line, resolving each
//! label to the absolute index of the line that declares it.
//!
//! The grammar is the machine's assembly language: one instruction per
//! line, an optional `LABEL:` prefix (a line with exactly one `:`
//! declares a label), a three-letter mnemonic, then the operands. The
//! whole compiler is specified by [`spec_parse_subroutine`] over the
//! input's bytes, and assembly either fully succeeds or reports the
//! first error in pass order.
//!
//! One quirk is deliberate: a line shorter than its three-letter
//! mnemonic — a blank line among the instructions — is not skipped but
//! rejected, as an unknown mnemonic.

use crate::machine::{Dest, Instr, Src};
use crate::text::{
    bytes_eq, count_byte, find_byte, find_byte_at, has_byte_count, lemma_find_byte,
    parse_i16_bytes, spec_parse_i16, split_bytes, split_on, tok2, tok3, tok4, tok5, trim_bytes,
    trim_s,
};
use vstd::prelude::*;
use vstd::slice::slice_subrange;
use vstd::string::StringSliceAdditionalSpecFns;

verus! {

/// Why a subroutine was rejected. Assembly either fully succeeds or
/// aborts with the first of these in pass order.
#[derive(Clone, Copy, Debug, PartialEq, Eq, Structural)]
pub enum AsmError {
    /// The same label is declared on two lines.
    DuplicateLabel,
    /// A line does not begin with one of the thirteen mnemonics.
    UnknownMnemonic,
    /// A jump names a label no line declares.
    UnresolvedLabel,
    /// A source operand is neither a named resource nor a well-formed
    /// 16-bit integer literal.
    BadLiteral,
    /// A destination operand is not one of the six destination tokens.
    UnknownDestination,
    /// A `MOV` has fewer than two operand tokens.
    MalformedMov,
}

/// A line declares a label exactly when it contains exactly one `:`.
pub open spec fn has_label(line: Seq<u8>) -> bool {
    count_byte(line, 58) == 1
}

/// The declared label: everything before the `:`.
pub open spec fn label_of(line: Seq<u8>) -> Seq<u8> {
    line.take(find_byte(line, 58))
}

/// The instruction text of a line: everything after the `:` of a label
/// declaration, or the whole line.
pub open spec fn line_body(line: Seq<u8>) -> Seq<u8> {
    if has_label(line) {
        line.skip(find_byte(line, 58) + 1)
    } else {
        line
    }
}

/// Whether two lines declare the same label.
pub open spec fn dup_labels(lines: Seq<Seq<u8>>) -> bool {
    exists|a: int, b: int|
        0 <= a < b < lines.len() && has_label(#[trigger] lines[a]) && has_label(
            #[trigger] lines[b],
        ) && label_of(lines[a]) == label_of(lines[b])
}

/// The first line at or after `k` that declares `name`, if any.
pub open spec fn lookup_label(lines: Seq<Seq<u8>>, name: Seq<u8>, k: int) -> Option<int>
    decreases lines.len() - k,
{
    if !(0 <= k < lines.len()) {
        Option::None
    } else if has_label(lines[k]) && label_of(lines[k]) == name {
        Option::Some(k)
    } else {
        lookup_label(lines, name, k + 1)
    }
}

/// What a source token denotes: a register or port name, `NIL` as the
/// literal zero, or a signed 16-bit integer literal.
pub open spec fn spec_match_src(t: Seq<u8>) -> Result<Src, AsmError> {
    if t == seq![65u8, 67u8, 67u8] {
        Result::Ok(Src::Acc)
    } else if t == seq![85u8, 80u8] {
        Result::Ok(Src::Up)
    } else if t == seq![68u8, 79u8, 87u8, 78u8] {
        Result::Ok(Src::Down)
    } else if t == seq![76u8, 69u8, 70u8, 84u8] {
        Result::Ok(Src::Left)
    } else if t == seq![82u8, 73u8, 71u8, 72u8, 84u8] {
        Result::Ok(Src::Right)
    } else if t == seq![78u8, 73u8, 76u8] {
        Result::Ok(Src::Literal(0))
    } else {
        match spec_parse_i16(t) {
            Option::Some(v) => Result::Ok(Src::Literal(v)),
            Option::None => Result::Err(AsmError::BadLiteral),
        }
    }
}

/// What a destination token denotes.
pub open spec fn spec_match_dest(t: Seq<u8>) -> Result<Dest, AsmError> {
    if t == seq![65u8, 67u8, 67u8] {
        Result::Ok(Dest::Acc)
    } else if t == seq![85u8, 80u8] {
        Result::Ok(Dest::Up)
    } else if t == seq![68u8, 79u8, 87u8, 78u8] {
        Result::Ok(Dest::Down)
    } else if t == seq![76u8, 69u8, 70u8, 84u8] {
        Result::Ok(Dest::Left)
    } else if t == seq![82u8, 73u8, 71u8, 72u8, 84u8] {
        Result::Ok(Dest::Right)
    } else if t == seq![78u8, 73u8, 76u8] {
        Result::Ok(Dest::Nil)
    } else {
        Result::Err(AsmError::UnknownDestination)
    }
}

/// A `MOV` operand field: two space-separated tokens, source first.
/// (Anything past the second token is ignored.)
pub open spec fn spec_parse_mov(rest: Seq<u8>) -> Result<Instr, AsmError> {
    let parts = split_on(trim_s(rest), 32);
    match spec_match_src(parts[0]) {
        Result::Err(e) => Result::Err(e),
        Result::Ok(src) => if parts.len() < 2 {
            Result::Err(AsmError::MalformedMov)
        } else {
            match spec_match_dest(parts[1]) {
                Result::Err(e) => Result::Err(e),
                Result::Ok(dest) => Result::Ok(Instr::Mov(src, dest)),
            }
        },
    }
}

/// A jump operand: a label name, resolved to the index of the declaring
/// line.
pub open spec fn spec_resolve(lines: Seq<Seq<u8>>, rest: Seq<u8>) -> Result<int, AsmError> {
    match lookup_label(lines, trim_s(rest), 0) {
        Option::Some(i) => Result::Ok(i),
        Option::None => Result::Err(AsmError::UnresolvedLabel),
    }
}

/// One line's instruction, after any label prefix was stripped.
pub open spec fn spec_parse_instr(lines: Seq<Seq<u8>>, body: Seq<u8>) -> Result<Instr, AsmError> {
    if body.len() < 3 {
        Result::Err(AsmError::UnknownMnemonic)
    } else {
        let mn = body.take(3);
        let rest = body.skip(3);
        if mn == seq![78u8, 79u8, 80u8] {
            Result::Ok(Instr::Nop)
        } else if mn == seq![77u8, 79u8, 86u8] {
            spec_parse_mov(rest)
        } else if mn == seq![83u8, 87u8, 80u8] {
            Result::Ok(Instr::Swp)
        } else if mn == seq![83u8, 65u8, 86u8] {
            Result::Ok(Instr::Sav)
        } else if mn == seq![65u8, 68u8, 68u8] {
            match spec_match_src(trim_s(rest)) {
                Result::Ok(s) => Result::Ok(Instr::Add(s)),
                Result::Err(e) => Result::Err(e),
            }
        } else if mn == seq![83u8, 85u8, 66u8] {
            match spec_match_src(trim_s(rest)) {
                Result::Ok(s) => Result::Ok(Instr::Sub(s)),
                Result::Err(e) => Result::Err(e),
            }
        } else if mn == seq![78u8, 69u8, 71u8] {
            Result::Ok(Instr::Neg)
        } else if mn == seq![74u8, 77u8, 80u8] {
            match spec_resolve(lines, rest) {
                Result::Ok(i) => Result::Ok(Instr::Jmp(i as usize)),
                Result::Err(e) => Result::Err(e),
            }
        } else if mn == seq![74u8, 69u8, 90u8] {
            match spec_resolve(lines, rest) {
                Result::Ok(i) => Result::Ok(Instr::Jez(i as usize)),
                Result::Err(e) => Result::Err(e),
            }
        } else if mn == seq![74u8, 78u8, 90u8] {
            match spec_resolve(lines, rest) {
                Result::Ok(i) => Result::Ok(Instr::Jnz(i as usize)),
                Result::Err(e) => Result::Err(e),
            }
        } else if mn == seq![74u8, 71u8, 90u8] {
            match spec_resolve(lines, rest) {
                Result::Ok(i) => Result::Ok(Instr::Jgz(i as usize)),
                Result::Err(e) => Result::Err(e),
            }
        } else if mn == seq![74u8, 76u8, 90u8] {
            match spec_resolve(lines, rest) {
                Result::Ok(i) => Result::Ok(Instr::Jlz(i as usize)),
                Result::Err(e) => Result::Err(e),
            }
        } else if mn == seq![74u8, 82u8, 79u8] {
            match spec_match_src(trim_s(rest)) {
                Result::Ok(s) => Result::Ok(Instr::Jro(s)),
                Result::Err(e) => Result::Err(e),
            }
        } else {
            Result::Err(AsmError::UnknownMnemonic)
        }
    }
}

/// The instructions of lines `k..`, or the first error among them.
pub open spec fn spec_parse_lines(lines: Seq<Seq<u8>>, k: int) -> Result<Seq<Instr>, AsmError>
    decreases lines.len() - k,
{
    if !(0 <= k < lines.len()) {
        Result::Ok(seq![])
    } else {
        match spec_parse_instr(lines, line_body(lines[k])) {
            Result::Err(e) => Result::Err(e),
            Result::Ok(i) => match spec_parse_lines(lines, k + 1) {
                Result::Err(e) => Result::Err(e),
                Result::Ok(rest) => Result::Ok(seq![i] + rest),
            },
        }
    }
}

/// The whole two-pass compiler over the input's bytes: empty input is
/// the empty program; otherwise the lines are checked for duplicate
/// labels and then compiled one instruction per line.
pub open spec fn spec_parse_subroutine(s: Seq<u8>) -> Result<Seq<Instr>, AsmError> {
    if s.len() == 0 {
        Result::Ok(seq![])
    } else {
        let lines = split_on(s, 10);
        if dup_labels(lines) {
            Result::Err(AsmError::DuplicateLabel)
        } else {
            spec_parse_lines(lines, 0)
        }
    }
}

/// Whether this line declares a label.
fn has_label_line(line: &[u8]) -> (r: bool)
    ensures
        r == has_label(line@),
{
    has_byte_count(line, 58, 1)
}

/// The declared label of a label line.
fn label_of_line<'a>(line: &'a [u8]) -> (r: &'a [u8])
    requires
        has_label(line@),
    ensures
        r@ == label_of(line@),
{
    proof {
        crate::text::lemma_count_find(line@, 58);
        lemma_find_byte(line@, 58);
    }
    match find_byte_at(line, 58) {
        Option::Some(i) => {
            let r = slice_subrange(line, 0, i);
            assert(r@ =~= label_of(line@));
            r
        }
        Option::None => {
            proof {
                assert(false);
            }
            line
        }
    }
}

/// The instruction text of a line, with any label prefix stripped.
fn line_body_slice<'a>(line: &'a [u8]) -> (r: &'a [u8])
    ensures
        r@ == line_body(line@),
{
    if has_label_line(line) {
        proof {
            crate::text::lemma_count_find(line@, 58);
            lemma_find_byte(line@, 58);
        }
        match find_byte_at(line, 58) {
            Option::Some(i) => {
                let n = line.len();
                let r = slice_subrange(line, i + 1, n);
                assert(r@ =~= line_body(line@));
                r
            }
            Option::None => {
                proof {
                    assert(false);
                }
                line
            }
        }
    } else {
        line
    }
}

/// Pass one: whether any two lines declare the same label.
fn find_dup_labels(lines: &Vec<Vec<u8>>) -> (r: bool)
    ensures
        r == dup_labels(lines.deep_view()),
{
    let ghost ldv = lines.deep_view();
    let n = lines.len();
    assert(ldv.len() == n) by {
        assert(ldv == Seq::new(lines@.len(), |i: int| lines@[i].deep_view()));
    }
    let mut j: usize = 0;
    while j < n
        invariant
            j <= n,
            n == lines@.len(),
            ldv == lines.deep_view(),
            ldv.len() == n,
            forall|a: int, b: int|
                0 <= a < b < j ==> !(has_label(#[trigger] ldv[a]) && has_label(#[trigger] ldv[b])
                    && label_of(ldv[a]) == label_of(ldv[b])),
        decreases n - j,
    {
        proof {
            assert(ldv[j as int] == lines@[j as int].deep_view());
            assert(lines@[j as int].deep_view() =~= lines@[j as int]@);
        }
        if has_label_line(lines[j].as_slice()) {
            let mut i: usize = 0;
            while i < j
                invariant
                    i <= j < n,
                    n == lines@.len(),
                    ldv == lines.deep_view(),
                    ldv.len() == n,
                    has_label(ldv[j as int]),
                    ldv[j as int] == lines@[j as int]@,
                    forall|a: int|
                        0 <= a < i ==> !(has_label(#[trigger] ldv[a]) && label_of(ldv[a])
                            == label_of(ldv[j as int])),
                decreases j - i,
            {
                proof {
                    assert(ldv[i as int] == lines@[i as int].deep_view());
                    assert(lines@[i as int].deep_view() =~= lines@[i as int]@);
                }
                if has_label_line(lines[i].as_slice()) {
                    let la = label_of_line(lines[i].as_slice());
                    let lb = label_of_line(lines[j].as_slice());
                    if bytes_eq(la, lb) {
                        assert(dup_labels(ldv)) by {
                            assert(has_label(ldv[i as int]) && has_label(ldv[j as int])
                                && label_of(ldv[i as int]) == label_of(ldv[j as int]));
                        }
                        return true;
                    }
                }
                i += 1;
            }
        }
        j += 1;
    }
    false
}

/// The first line declaring `name`, scanning from line `k` on.
fn lookup_label_at(lines: &Vec<Vec<u8>>, name: &[u8], k: usize) -> (r: Option<usize>)
    requires
        k <= lines@.len(),
    ensures
        match r {
            Option::Some(i) => lookup_label(lines.deep_view(), name@, k as int) == Option::Some(
                i as int,
            ) && i < lines@.len(),
            Option::None => lookup_label(lines.deep_view(), name@, k as int) is None,
        },
    decreases lines@.len() - k,
{
    let ghost ldv = lines.deep_view();
    assert(ldv.len() == lines@.len());
    if k == lines.len() {
        return Option::None;
    }
    proof {
        assert(ldv[k as int] == lines@[k as int].deep_view());
        assert(lines@[k as int].deep_view() =~= lines@[k as int]@);
    }
    if has_label_line(lines[k].as_slice()) {
        if bytes_eq(label_of_line(lines[k].as_slice()), name) {
            return Option::Some(k);
        }
    }
    lookup_label_at(lines, name, k + 1)
}

/// Recognize a source token.
fn match_src(possible_src: &[u8]) -> (r: Result<Src, AsmError>)
    ensures
        r == spec_match_src(possible_src@),
{
    let t = possible_src;
    if tok3(t, 65, 67, 67) {
        Result::Ok(Src::Acc)
    } else if tok2(t, 85, 80) {
        Result::Ok(Src::Up)
    } else if tok4(t, 68, 79, 87, 78) {
        Result::Ok(Src::Down)
    } else if tok4(t, 76, 69, 70, 84) {
        Result::Ok(Src::Left)
    } else if tok5(t, 82, 73, 71, 72, 84) {
        Result::Ok(Src::Right)
    } else if tok3(t, 78, 73, 76) {
        Result::Ok(Src::Literal(0))
    } else {
        match parse_i16_bytes(t) {
            Option::Some(v) => Result::Ok(Src::Literal(v)),
            Option::None => Result::Err(AsmError::BadLiteral),
        }
    }
}

/// Recognize a destination token.
fn match_dest(possible_dest: &[u8]) -> (r: Result<Dest, AsmError>)
    ensures
        r == spec_match_dest(possible_dest@),
{
    let t = possible_dest;
    if tok3(t, 65, 67, 67) {
        Result::Ok(Dest::Acc)
    } else if tok2(t, 85, 80) {
        Result::Ok(Dest::Up)
    } else if tok4(t, 68, 79, 87, 78) {
        Result::Ok(Dest::Down)
    } else if tok4(t, 76, 69, 70, 84) {
        Result::Ok(Dest::Left)
    } else if tok5(t, 82, 73, 71, 72, 84) {
        Result::Ok(Dest::Right)
    } else if tok3(t, 78, 73, 76) {
        Result::Ok(Dest::Nil)
    } else {
        Result::Err(AsmError::UnknownDestination)
    }
}

/// Parse a `MOV`'s two-token operand field.
fn parse_mov_instr(instr_body: &[u8]) -> (r: Result<Instr, AsmError>)
    ensures
        r == spec_parse_mov(instr_body@),
{
    let trimmed = trim_bytes(instr_body);
    let parts = split_bytes(trimmed, 32);
    let ghost pdv = parts.deep_view();
    assert(pdv.len() == parts@.len());
    assert(pdv[0] == parts@[0].deep_view() && parts@[0].deep_view() =~= parts@[0]@);
    match match_src(parts[0].as_slice()) {
        Result::Err(e) => Result::Err(e),
        Result::Ok(src) => {
            if parts.len() < 2 {
                Result::Err(AsmError::MalformedMov)
            } else {
                proof {
                    assert(pdv[1] == parts@[1].deep_view() && parts@[1].deep_view() =~= parts@[1]@);
                }
                match match_dest(parts[1].as_slice()) {
                    Result::Err(e) => Result::Err(e),
                    Result::Ok(dest) => Result::Ok(Instr::Mov(src, dest)),
                }
            }
        }
    }
}

/// Parse an `ADD`'s operand.
fn parse_add_instr(instr_body: &[u8]) -> (r: Result<Instr, AsmError>)
    ensures
        r == (match spec_match_src(trim_s(instr_body@)) {
            Result::Ok(s) => Result::<Instr, AsmError>::Ok(Instr::Add(s)),
            Result::Err(e) => Result::<Instr, AsmError>::Err(e),
        }),
{
    match match_src(trim_bytes(instr_body)) {
        Result::Ok(s) => Result::Ok(Instr::Add(s)),
        Result::Err(e) => Result::Err(e),
    }
}

/// Parse a `SUB`'s operand.
fn parse_sub_instr(instr_body: &[u8]) -> (r: Result<Instr, AsmError>)
    ensures
        r == (match spec_match_src(trim_s(instr_body@)) {
            Result::Ok(s) => Result::<Instr, AsmError>::Ok(Instr::Sub(s)),
            Result::Err(e) => Result::<Instr, AsmError>::Err(e),
        }),
{
    match match_src(trim_bytes(instr_body)) {
        Result::Ok(s) => Result::Ok(Instr::Sub(s)),
        Result::Err(e) => Result::Err(e),
    }
}

/// Parse a `JRO`'s operand.
fn parse_jro_instr(instr_body: &[u8]) -> (r: Result<Instr, AsmError>)
    ensures
        r == (match spec_match_src(trim_s(instr_body@)) {
            Result::Ok(s) => Result::<Instr, AsmError>::Ok(Instr::Jro(s)),
            Result::Err(e) => Result::<Instr, AsmError>::Err(e),
        }),
{
    match match_src(trim_bytes(instr_body)) {
        Result::Ok(s) => Result::Ok(Instr::Jro(s)),
        Result::Err(e) => Result::Err(e),
    }
}

/// Resolve a jump operand to the index of the line declaring its label.
fn resolve_label(instr_body: &[u8], lines: &Vec<Vec<u8>>) -> (r: Result<usize, AsmError>)
    ensures
        match r {
            Result::Ok(i) => spec_resolve(lines.deep_view(), instr_body@) == Result::<
                int,
                AsmError,
            >::Ok(i as int) && i < lines@.len(),
            Result::Err(e) => spec_resolve(lines.deep_view(), instr_body@) == Result::<
                int,
                AsmError,
            >::Err(e),
        },
{
    let name = trim_bytes(instr_body);
    match lookup_label_at(lines, name, 0) {
        Option::Some(i) => Result::Ok(i),
        Option::None => Result::Err(AsmError::UnresolvedLabel),
    }
}

/// Parse a `JMP`'s operand.
fn parse_jmp_instr(instr_body: &[u8], lines: &Vec<Vec<u8>>) -> (r: Result<Instr, AsmError>)
    ensures
        r == (match spec_resolve(lines.deep_view(), instr_body@) {
            Result::Ok(i) => Result::<Instr, AsmError>::Ok(Instr::Jmp(i as usize)),
            Result::Err(e) => Result::<Instr, AsmError>::Err(e),
        }),
{
    match resolve_label(instr_body, lines) {
        Result::Ok(i) => Result::Ok(Instr::Jmp(i)),
        Result::Err(e) => Result::Err(e),
    }
}

/// Parse a `JEZ`'s operand.
fn parse_jez_instr(instr_body: &[u8], lines: &Vec<Vec<u8>>) -> (r: Result<Instr, AsmError>)
    ensures
        r == (match spec_resolve(lines.deep_view(), instr_body@) {
            Result::Ok(i) => Result::<Instr, AsmError>::Ok(Instr::Jez(i as usize)),
            Result::Err(e) => Result::<Instr, AsmError>::Err(e),
        }),
{
    match resolve_label(instr_body, lines) {
        Result::Ok(i) => Result::Ok(Instr::Jez(i)),
        Result::Err(e) => Result::Err(e),
    }
}

/// Parse a `JNZ`'s operand.
fn parse_jnz_instr(instr_body: &[u8], lines: &Vec<Vec<u8>>) -> (r: Result<Instr, AsmError>)
    ensures
        r == (match spec_resolve(lines.deep_view(), instr_body@) {
            Result::Ok(i) => Result::<Instr, AsmError>::Ok(Instr::Jnz(i as usize)),
            Result::Err(e) => Result::<Instr, AsmError>::Err(e),
        }),
{
    match resolve_label(instr_body, lines) {
        Result::Ok(i) => Result::Ok(Instr::Jnz(i)),
        Result::Err(e) => Result::Err(e),
    }
}

/// Parse a `JGZ`'s operand.
fn parse_jgz_instr(instr_body: &[u8], lines: &Vec<Vec<u8>>) -> (r: Result<Instr, AsmError>)
    ensures
        r == (match spec_resolve(lines.deep_view(), instr_body@) {
            Result::Ok(i) => Result::<Instr, AsmError>::Ok(Instr::Jgz(i as usize)),
            Result::Err(e) => Result::<Instr, AsmError>::Err(e),
        }),
{
    match resolve_label(instr_body, lines) {
        Result::Ok(i) => Result::Ok(Instr::Jgz(i)),
        Result::Err(e) => Result::Err(e),
    }
}

/// Parse a `JLZ`'s operand.
fn parse_jlz_instr(instr_body: &[u8], lines: &Vec<Vec<u8>>) -> (r: Result<Instr, AsmError>)
    ensures
        r == (match spec_resolve(lines.deep_view(), instr_body@) {
            Result::Ok(i) => Result::<Instr, AsmError>::Ok(Instr::Jlz(i as usize)),
            Result::Err(e) => Result::<Instr, AsmError>::Err(e),
        }),
{
    match resolve_label(instr_body, lines) {
        Result::Ok(i) => Result::Ok(Instr::Jlz(i)),
        Result::Err(e) => Result::Err(e),
    }
}

/// Parse one line's instruction text: three-letter mnemonic, then the
/// operand field.
fn parse_instr(instr_body: &[u8], lines: &Vec<Vec<u8>>) -> (r: Result<Instr, AsmError>)
    ensures
        r == spec_parse_instr(lines.deep_view(), instr_body@),
{
    if instr_body.len() < 3 {
        return Result::Err(AsmError::UnknownMnemonic);
    }
    let n = instr_body.len();
    let mn = slice_subrange(instr_body, 0, 3);
    let rest = slice_subrange(instr_body, 3, n);
    assert(mn@ =~= instr_body@.take(3));
    assert(rest@ =~= instr_body@.skip(3));
    if tok3(mn, 78, 79, 80) {
        Result::Ok(Instr::Nop)
    } else if tok3(mn, 77, 79, 86) {
        parse_mov_instr(rest)
    } else if tok3(mn, 83, 87, 80) {
        Result::Ok(Instr::Swp)
    } else if tok3(mn, 83, 65, 86) {
        Result::Ok(Instr::Sav)
    } else if tok3(mn, 65, 68, 68) {
        parse_add_instr(rest)
    } else if tok3(mn, 83, 85, 66) {
        parse_sub_instr(rest)
    } else if tok3(mn, 78, 69, 71) {
        Result::Ok(Instr::Neg)
    } else if tok3(mn, 74, 77, 80) {
        parse_jmp_instr(rest, lines)
    } else if tok3(mn, 74, 69, 90) {
        parse_jez_instr(rest, lines)
    } else if tok3(mn, 74, 78, 90) {
        parse_jnz_instr(rest, lines)
    } else if tok3(mn, 74, 71, 90) {
        parse_jgz_instr(rest, lines)
    } else if tok3(mn, 74, 76, 90) {
        parse_jlz_instr(rest, lines)
    } else if tok3(mn, 74, 82, 79) {
        parse_jro_instr(rest)
    } else {
        Result::Err(AsmError::UnknownMnemonic)
    }
}

/// Pass two over lines `k..`: one instruction per line, stopping at the
/// first error.
fn parse_lines_from(lines: &Vec<Vec<u8>>, k: usize) -> (r: Result<Vec<Instr>, AsmError>)
    requires
        k <= lines@.len(),
    ensures
        match r {
            Result::Ok(v) => spec_parse_lines(lines.deep_view(), k as int) == Result::<
                Seq<Instr>,
                AsmError,
            >::Ok(v@),
            Result::Err(e) => spec_parse_lines(lines.deep_view(), k as int) == Result::<
                Seq<Instr>,
                AsmError,
            >::Err(e),
        },
    decreases lines@.len() - k,
{
    let ghost ldv = lines.deep_view();
    assert(ldv.len() == lines@.len());
    if k == lines.len() {
        let out: Vec<Instr> = Vec::new();
        assert(out@ =~= Seq::<Instr>::empty());
        return Result::Ok(out);
    }
    proof {
        assert(ldv[k as int] == lines@[k as int].deep_view());
        assert(lines@[k as int].deep_view() =~= lines@[k as int]@);
    }
    let body = line_body_slice(lines[k].as_slice());
    let head = match parse_instr(body, lines) {
        Result::Ok(i) => i,
        Result::Err(e) => {
            return Result::Err(e);
        }
    };
    match parse_lines_from(lines, k + 1) {
        Result::Ok(mut rest) => {
            rest.insert(0, head);
            assert(rest@ =~= seq![head] + spec_parse_lines(ldv, k + 1)->Ok_0);
            Result::Ok(rest)
        }
        Result::Err(e) => Result::Err(e),
    }
}

/// Compile a textual subroutine into a program: one instruction per
/// line, labels resolved to absolute indices. Returns exactly what
/// [`spec_parse_subroutine`] says of the input's bytes — the program on
/// success, and the first error in pass order otherwise.
pub fn parse_subroutine(input: &str) -> (r: Result<Vec<Instr>, AsmError>)
    ensures
        ({
            let sp = spec_parse_subroutine(input.spec_bytes());
            match r {
                Result::Ok(v) => sp == Result::<Seq<Instr>, AsmError>::Ok(v@),
                Result::Err(e) => sp == Result::<Seq<Instr>, AsmError>::Err(e),
            }
        }),
{
    let bytes = input.as_bytes();
    if bytes.len() == 0 {
        let out: Vec<Instr> = Vec::new();
        assert(out@ =~= Seq::<Instr>::empty());
        return Result::Ok(out);
    }
    let lines = split_bytes(bytes, 10);
    if find_dup_labels(&lines) {
        return Result::Err(AsmError::DuplicateLabel);
    }
    parse_lines_from(&lines, 0)
}

} // verus!
