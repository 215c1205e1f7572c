use fabric::machine::{Dest, Instr, Src};
use fabric::parse::{parse_subroutine, AsmError};

#[test]
fn empty_input_is_the_empty_program() {
    let prog = parse_subroutine("").unwrap();
    assert_eq!(prog.len(), 0);
}

#[test]
fn every_mnemonic_parses() {
    let prog = parse_subroutine(
        "NOP
MOV 1 ACC
SWP
SAV
ADD 2
SUB ACC
NEG
HERE:JMP HERE
JEZ HERE
JNZ HERE
JGZ HERE
JLZ HERE
JRO -2",
    )
    .unwrap();
    assert_eq!(
        prog,
        vec![
            Instr::Nop,
            Instr::Mov(Src::Literal(1), Dest::Acc),
            Instr::Swp,
            Instr::Sav,
            Instr::Add(Src::Literal(2)),
            Instr::Sub(Src::Acc),
            Instr::Neg,
            Instr::Jmp(7),
            Instr::Jez(7),
            Instr::Jnz(7),
            Instr::Jgz(7),
            Instr::Jlz(7),
            Instr::Jro(Src::Literal(-2)),
        ]
    );
}

#[test]
fn labels_resolve_to_their_line_index() {
    let prog = parse_subroutine(
        "START:SUB UP
JGZ POS
NEG:ADD 10
POS:SUB 10
JMP START",
    )
    .unwrap();
    assert_eq!(
        prog,
        vec![
            Instr::Sub(Src::Up),
            Instr::Jgz(3),
            Instr::Add(Src::Literal(10)),
            Instr::Sub(Src::Literal(10)),
            Instr::Jmp(0),
        ]
    );
}

#[test]
fn all_source_tokens_parse() {
    let prog = parse_subroutine(
        "MOV ACC NIL
MOV UP DOWN
MOV DOWN UP
MOV LEFT RIGHT
MOV RIGHT LEFT
MOV NIL ACC
MOV -32768 ACC
MOV 32767 ACC",
    )
    .unwrap();
    assert_eq!(
        prog,
        vec![
            Instr::Mov(Src::Acc, Dest::Nil),
            Instr::Mov(Src::Up, Dest::Down),
            Instr::Mov(Src::Down, Dest::Up),
            Instr::Mov(Src::Left, Dest::Right),
            Instr::Mov(Src::Right, Dest::Left),
            Instr::Mov(Src::Literal(0), Dest::Acc),
            Instr::Mov(Src::Literal(-32768), Dest::Acc),
            Instr::Mov(Src::Literal(32767), Dest::Acc),
        ]
    );
}

#[test]
fn duplicate_label_is_fatal() {
    let r = parse_subroutine("A:NOP\nA:NOP");
    assert_eq!(r, Err(AsmError::DuplicateLabel));
}

#[test]
fn duplicate_label_is_reported_before_any_other_error() {
    let r = parse_subroutine("QQQ\nA:NOP\nA:NOP");
    assert_eq!(r, Err(AsmError::DuplicateLabel));
}

#[test]
fn unknown_mnemonic_is_fatal() {
    let r = parse_subroutine("XYZ 1");
    assert_eq!(r, Err(AsmError::UnknownMnemonic));
}

#[test]
fn short_line_is_an_unknown_mnemonic() {
    let r = parse_subroutine("NOP\n\nNOP");
    assert_eq!(r, Err(AsmError::UnknownMnemonic));
}

#[test]
fn unresolved_label_is_fatal() {
    let r = parse_subroutine("JMP NOWHERE");
    assert_eq!(r, Err(AsmError::UnresolvedLabel));
}

#[test]
fn bad_literal_is_fatal() {
    assert_eq!(parse_subroutine("ADD bogus"), Err(AsmError::BadLiteral));
    assert_eq!(parse_subroutine("ADD 12x"), Err(AsmError::BadLiteral));
    assert_eq!(parse_subroutine("ADD"), Err(AsmError::BadLiteral));
    assert_eq!(parse_subroutine("ADD 32768"), Err(AsmError::BadLiteral));
    assert_eq!(parse_subroutine("ADD -32769"), Err(AsmError::BadLiteral));
}

#[test]
fn plus_sign_and_bounds_are_accepted() {
    let prog = parse_subroutine("ADD +5\nSUB -32768\nJRO +32767").unwrap();
    assert_eq!(
        prog,
        vec![
            Instr::Add(Src::Literal(5)),
            Instr::Sub(Src::Literal(-32768)),
            Instr::Jro(Src::Literal(32767)),
        ]
    );
}

#[test]
fn unknown_destination_is_fatal() {
    let r = parse_subroutine("MOV 1 SIDEWAYS");
    assert_eq!(r, Err(AsmError::UnknownDestination));
}

#[test]
fn mov_with_one_token_is_malformed() {
    let r = parse_subroutine("MOV 1");
    assert_eq!(r, Err(AsmError::MalformedMov));
}

#[test]
fn first_failing_line_wins() {
    let r = parse_subroutine("NOP\nJMP NOWHERE\nXYZ");
    assert_eq!(r, Err(AsmError::UnresolvedLabel));
}

#[test]
fn label_line_still_emits_its_instruction() {
    let prog = parse_subroutine("L:NOP\nJMP L").unwrap();
    assert_eq!(prog, vec![Instr::Nop, Instr::Jmp(0)]);
}

#[test]
fn two_colons_make_no_label() {
    // A line with two separators declares nothing; its text is parsed
    // whole and does not start with a mnemonic.
    let r = parse_subroutine("A:B:NOP");
    assert_eq!(r, Err(AsmError::UnknownMnemonic));
}
