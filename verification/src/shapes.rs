//! The shapes of the unit's log: one per kind of event tail, and those of
//! the unit tag, the firmware record and the event record.

use vstd::prelude::*;

use crate::pattern::{shape_wf, CharClass, Tok, WordSet};

verus! {

/// The shape `([-*+0-9]+) ([0-9a-fA-F]+) (.+?) ([0-9]+) ([0-9a-fA-F]+) ([0-9]+) v:(.+?)$`.
pub open spec fn shape_signon() -> Seq<Tok> {
    seq![
        Tok::Open(1), Tok::Plus(CharClass::DigitOrSign), Tok::Close(1), Tok::Lit(' '),
        Tok::Open(2), Tok::Plus(CharClass::HexDigit), Tok::Close(2), Tok::Lit(' '),
        Tok::Open(3), Tok::LazyPlus(CharClass::AnyButNewline), Tok::Close(3), Tok::Lit(' '),
        Tok::Open(4), Tok::Plus(CharClass::AsciiDigit), Tok::Close(4), Tok::Lit(' '),
        Tok::Open(5), Tok::Plus(CharClass::HexDigit), Tok::Close(5), Tok::Lit(' '),
        Tok::Open(6), Tok::Plus(CharClass::AsciiDigit), Tok::Close(6), Tok::Lit(' '),
        Tok::Lit('v'), Tok::Lit(':'), Tok::Open(7), Tok::LazyPlus(CharClass::AnyButNewline),
        Tok::Close(7), Tok::End,
    ]
}

/// Builds the shape of [`shape_signon`].
pub fn shape_signon_exec() -> (p: Vec<Tok>)
    ensures
        p@ == shape_signon(),
        shape_wf(p@, 8),
{
    let p = vec![
        Tok::Open(1), Tok::Plus(CharClass::DigitOrSign), Tok::Close(1), Tok::Lit(' '),
        Tok::Open(2), Tok::Plus(CharClass::HexDigit), Tok::Close(2), Tok::Lit(' '),
        Tok::Open(3), Tok::LazyPlus(CharClass::AnyButNewline), Tok::Close(3), Tok::Lit(' '),
        Tok::Open(4), Tok::Plus(CharClass::AsciiDigit), Tok::Close(4), Tok::Lit(' '),
        Tok::Open(5), Tok::Plus(CharClass::HexDigit), Tok::Close(5), Tok::Lit(' '),
        Tok::Open(6), Tok::Plus(CharClass::AsciiDigit), Tok::Close(6), Tok::Lit(' '),
        Tok::Lit('v'), Tok::Lit(':'), Tok::Open(7), Tok::LazyPlus(CharClass::AnyButNewline),
        Tok::Close(7), Tok::End,
    ];
    assert(p@ =~= shape_signon());
    p
}

/// The shape `([0-9]+) (OK|CANCEL|NOFILE) ([0-9]+) ([0-9]+) ([0-9]+) ([\-a-zA-Z]+) v:(.+?)$`.
pub open spec fn shape_checklist() -> Seq<Tok> {
    seq![
        Tok::Open(1), Tok::Plus(CharClass::AsciiDigit), Tok::Close(1), Tok::Lit(' '),
        Tok::Open(2), Tok::Words(WordSet::CheckResult), Tok::Close(2), Tok::Lit(' '),
        Tok::Open(3), Tok::Plus(CharClass::AsciiDigit), Tok::Close(3), Tok::Lit(' '),
        Tok::Open(4), Tok::Plus(CharClass::AsciiDigit), Tok::Close(4), Tok::Lit(' '),
        Tok::Open(5), Tok::Plus(CharClass::AsciiDigit), Tok::Close(5), Tok::Lit(' '),
        Tok::Open(6), Tok::Plus(CharClass::DashOrLetter), Tok::Close(6), Tok::Lit(' '),
        Tok::Lit('v'), Tok::Lit(':'), Tok::Open(7), Tok::LazyPlus(CharClass::AnyButNewline),
        Tok::Close(7), Tok::End,
    ]
}

/// Builds the shape of [`shape_checklist`].
pub fn shape_checklist_exec() -> (p: Vec<Tok>)
    ensures
        p@ == shape_checklist(),
        shape_wf(p@, 8),
{
    let p = vec![
        Tok::Open(1), Tok::Plus(CharClass::AsciiDigit), Tok::Close(1), Tok::Lit(' '),
        Tok::Open(2), Tok::Words(WordSet::CheckResult), Tok::Close(2), Tok::Lit(' '),
        Tok::Open(3), Tok::Plus(CharClass::AsciiDigit), Tok::Close(3), Tok::Lit(' '),
        Tok::Open(4), Tok::Plus(CharClass::AsciiDigit), Tok::Close(4), Tok::Lit(' '),
        Tok::Open(5), Tok::Plus(CharClass::AsciiDigit), Tok::Close(5), Tok::Lit(' '),
        Tok::Open(6), Tok::Plus(CharClass::DashOrLetter), Tok::Close(6), Tok::Lit(' '),
        Tok::Lit('v'), Tok::Lit(':'), Tok::Open(7), Tok::LazyPlus(CharClass::AnyButNewline),
        Tok::Close(7), Tok::End,
    ];
    assert(p@ =~= shape_checklist());
    p
}

/// The shape `([0-9]+) ([0-9]+) v:(.+?)$`.
pub open spec fn shape_two_numbers() -> Seq<Tok> {
    seq![
        Tok::Open(1), Tok::Plus(CharClass::AsciiDigit), Tok::Close(1), Tok::Lit(' '),
        Tok::Open(2), Tok::Plus(CharClass::AsciiDigit), Tok::Close(2), Tok::Lit(' '),
        Tok::Lit('v'), Tok::Lit(':'), Tok::Open(3), Tok::LazyPlus(CharClass::AnyButNewline),
        Tok::Close(3), Tok::End,
    ]
}

/// Builds the shape of [`shape_two_numbers`].
pub fn shape_two_numbers_exec() -> (p: Vec<Tok>)
    ensures
        p@ == shape_two_numbers(),
        shape_wf(p@, 4),
{
    let p = vec![
        Tok::Open(1), Tok::Plus(CharClass::AsciiDigit), Tok::Close(1), Tok::Lit(' '),
        Tok::Open(2), Tok::Plus(CharClass::AsciiDigit), Tok::Close(2), Tok::Lit(' '),
        Tok::Lit('v'), Tok::Lit(':'), Tok::Open(3), Tok::LazyPlus(CharClass::AnyButNewline),
        Tok::Close(3), Tok::End,
    ];
    assert(p@ =~= shape_two_numbers());
    p
}

/// The shape `(.+)$`.
pub open spec fn shape_debug() -> Seq<Tok> {
    seq![
        Tok::Open(1), Tok::Plus(CharClass::AnyButNewline), Tok::Close(1), Tok::End,
    ]
}

/// Builds the shape of [`shape_debug`].
pub fn shape_debug_exec() -> (p: Vec<Tok>)
    ensures
        p@ == shape_debug(),
        shape_wf(p@, 2),
{
    let p = vec![
        Tok::Open(1), Tok::Plus(CharClass::AnyButNewline), Tok::Close(1), Tok::End,
    ];
    assert(p@ =~= shape_debug());
    p
}

/// The shape `([0-9]+) ([0-9]+) ([0-9]+) v:(.+?)$`.
pub open spec fn shape_three_numbers() -> Seq<Tok> {
    seq![
        Tok::Open(1), Tok::Plus(CharClass::AsciiDigit), Tok::Close(1), Tok::Lit(' '),
        Tok::Open(2), Tok::Plus(CharClass::AsciiDigit), Tok::Close(2), Tok::Lit(' '),
        Tok::Open(3), Tok::Plus(CharClass::AsciiDigit), Tok::Close(3), Tok::Lit(' '),
        Tok::Lit('v'), Tok::Lit(':'), Tok::Open(4), Tok::LazyPlus(CharClass::AnyButNewline),
        Tok::Close(4), Tok::End,
    ]
}

/// Builds the shape of [`shape_three_numbers`].
pub fn shape_three_numbers_exec() -> (p: Vec<Tok>)
    ensures
        p@ == shape_three_numbers(),
        shape_wf(p@, 5),
{
    let p = vec![
        Tok::Open(1), Tok::Plus(CharClass::AsciiDigit), Tok::Close(1), Tok::Lit(' '),
        Tok::Open(2), Tok::Plus(CharClass::AsciiDigit), Tok::Close(2), Tok::Lit(' '),
        Tok::Open(3), Tok::Plus(CharClass::AsciiDigit), Tok::Close(3), Tok::Lit(' '),
        Tok::Lit('v'), Tok::Lit(':'), Tok::Open(4), Tok::LazyPlus(CharClass::AnyButNewline),
        Tok::Close(4), Tok::End,
    ];
    assert(p@ =~= shape_three_numbers());
    p
}

/// The shape `([0-9]+) ([0-9]+)(.*) v:(.+?)$`.
pub open spec fn shape_two_numbers_rest() -> Seq<Tok> {
    seq![
        Tok::Open(1), Tok::Plus(CharClass::AsciiDigit), Tok::Close(1), Tok::Lit(' '),
        Tok::Open(2), Tok::Plus(CharClass::AsciiDigit), Tok::Close(2), Tok::Open(3),
        Tok::Star(CharClass::AnyButNewline), Tok::Close(3), Tok::Lit(' '), Tok::Lit('v'),
        Tok::Lit(':'), Tok::Open(4), Tok::LazyPlus(CharClass::AnyButNewline), Tok::Close(4),
        Tok::End,
    ]
}

/// Builds the shape of [`shape_two_numbers_rest`].
pub fn shape_two_numbers_rest_exec() -> (p: Vec<Tok>)
    ensures
        p@ == shape_two_numbers_rest(),
        shape_wf(p@, 5),
{
    let p = vec![
        Tok::Open(1), Tok::Plus(CharClass::AsciiDigit), Tok::Close(1), Tok::Lit(' '),
        Tok::Open(2), Tok::Plus(CharClass::AsciiDigit), Tok::Close(2), Tok::Open(3),
        Tok::Star(CharClass::AnyButNewline), Tok::Close(3), Tok::Lit(' '), Tok::Lit('v'),
        Tok::Lit(':'), Tok::Open(4), Tok::LazyPlus(CharClass::AnyButNewline), Tok::Close(4),
        Tok::End,
    ];
    assert(p@ =~= shape_two_numbers_rest());
    p
}

/// The shape `(.*) v:(.+?)$`.
pub open spec fn shape_hardware() -> Seq<Tok> {
    seq![
        Tok::Open(1), Tok::Star(CharClass::AnyButNewline), Tok::Close(1), Tok::Lit(' '),
        Tok::Lit('v'), Tok::Lit(':'), Tok::Open(2), Tok::LazyPlus(CharClass::AnyButNewline),
        Tok::Close(2), Tok::End,
    ]
}

/// Builds the shape of [`shape_hardware`].
pub fn shape_hardware_exec() -> (p: Vec<Tok>)
    ensures
        p@ == shape_hardware(),
        shape_wf(p@, 3),
{
    let p = vec![
        Tok::Open(1), Tok::Star(CharClass::AnyButNewline), Tok::Close(1), Tok::Lit(' '),
        Tok::Lit('v'), Tok::Lit(':'), Tok::Open(2), Tok::LazyPlus(CharClass::AnyButNewline),
        Tok::Close(2), Tok::End,
    ];
    assert(p@ =~= shape_hardware());
    p
}

/// The shape `([0-9]+) ([0-9]+) ([0-9]+) ([0-9]+) ([0-9]+) ([0-9]+) ([0-9]+) ([\-a-zA-Z]+) v:(.+?)$`.
pub open spec fn shape_impact() -> Seq<Tok> {
    seq![
        Tok::Open(1), Tok::Plus(CharClass::AsciiDigit), Tok::Close(1), Tok::Lit(' '),
        Tok::Open(2), Tok::Plus(CharClass::AsciiDigit), Tok::Close(2), Tok::Lit(' '),
        Tok::Open(3), Tok::Plus(CharClass::AsciiDigit), Tok::Close(3), Tok::Lit(' '),
        Tok::Open(4), Tok::Plus(CharClass::AsciiDigit), Tok::Close(4), Tok::Lit(' '),
        Tok::Open(5), Tok::Plus(CharClass::AsciiDigit), Tok::Close(5), Tok::Lit(' '),
        Tok::Open(6), Tok::Plus(CharClass::AsciiDigit), Tok::Close(6), Tok::Lit(' '),
        Tok::Open(7), Tok::Plus(CharClass::AsciiDigit), Tok::Close(7), Tok::Lit(' '),
        Tok::Open(8), Tok::Plus(CharClass::DashOrLetter), Tok::Close(8), Tok::Lit(' '),
        Tok::Lit('v'), Tok::Lit(':'), Tok::Open(9), Tok::LazyPlus(CharClass::AnyButNewline),
        Tok::Close(9), Tok::End,
    ]
}

/// Builds the shape of [`shape_impact`].
pub fn shape_impact_exec() -> (p: Vec<Tok>)
    ensures
        p@ == shape_impact(),
        shape_wf(p@, 10),
{
    let p = vec![
        Tok::Open(1), Tok::Plus(CharClass::AsciiDigit), Tok::Close(1), Tok::Lit(' '),
        Tok::Open(2), Tok::Plus(CharClass::AsciiDigit), Tok::Close(2), Tok::Lit(' '),
        Tok::Open(3), Tok::Plus(CharClass::AsciiDigit), Tok::Close(3), Tok::Lit(' '),
        Tok::Open(4), Tok::Plus(CharClass::AsciiDigit), Tok::Close(4), Tok::Lit(' '),
        Tok::Open(5), Tok::Plus(CharClass::AsciiDigit), Tok::Close(5), Tok::Lit(' '),
        Tok::Open(6), Tok::Plus(CharClass::AsciiDigit), Tok::Close(6), Tok::Lit(' '),
        Tok::Open(7), Tok::Plus(CharClass::AsciiDigit), Tok::Close(7), Tok::Lit(' '),
        Tok::Open(8), Tok::Plus(CharClass::DashOrLetter), Tok::Close(8), Tok::Lit(' '),
        Tok::Lit('v'), Tok::Lit(':'), Tok::Open(9), Tok::LazyPlus(CharClass::AnyButNewline),
        Tok::Close(9), Tok::End,
    ];
    assert(p@ =~= shape_impact());
    p
}

/// The shape ` v:(.+?)$`.
pub open spec fn shape_spaced_volts() -> Seq<Tok> {
    seq![
        Tok::Lit(' '), Tok::Lit('v'), Tok::Lit(':'), Tok::Open(1),
        Tok::LazyPlus(CharClass::AnyButNewline), Tok::Close(1), Tok::End,
    ]
}

/// Builds the shape of [`shape_spaced_volts`].
pub fn shape_spaced_volts_exec() -> (p: Vec<Tok>)
    ensures
        p@ == shape_spaced_volts(),
        shape_wf(p@, 2),
{
    let p = vec![
        Tok::Lit(' '), Tok::Lit('v'), Tok::Lit(':'), Tok::Open(1),
        Tok::LazyPlus(CharClass::AnyButNewline), Tok::Close(1), Tok::End,
    ];
    assert(p@ =~= shape_spaced_volts());
    p
}

/// The shape `v:(.+?)$`.
pub open spec fn shape_bare_volts() -> Seq<Tok> {
    seq![
        Tok::Lit('v'), Tok::Lit(':'), Tok::Open(1), Tok::LazyPlus(CharClass::AnyButNewline),
        Tok::Close(1), Tok::End,
    ]
}

/// Builds the shape of [`shape_bare_volts`].
pub fn shape_bare_volts_exec() -> (p: Vec<Tok>)
    ensures
        p@ == shape_bare_volts(),
        shape_wf(p@, 2),
{
    let p = vec![
        Tok::Lit('v'), Tok::Lit(':'), Tok::Open(1), Tok::LazyPlus(CharClass::AnyButNewline),
        Tok::Close(1), Tok::End,
    ];
    assert(p@ =~= shape_bare_volts());
    p
}

/// The shape `(\*|[0-9]+) ([0-9]+) ([0-9]+) v:(.+?)$`.
pub open spec fn shape_report() -> Seq<Tok> {
    seq![
        Tok::Open(1), Tok::StarOrDigits, Tok::Close(1), Tok::Lit(' '), Tok::Open(2),
        Tok::Plus(CharClass::AsciiDigit), Tok::Close(2), Tok::Lit(' '), Tok::Open(3),
        Tok::Plus(CharClass::AsciiDigit), Tok::Close(3), Tok::Lit(' '), Tok::Lit('v'),
        Tok::Lit(':'), Tok::Open(4), Tok::LazyPlus(CharClass::AnyButNewline), Tok::Close(4),
        Tok::End,
    ]
}

/// Builds the shape of [`shape_report`].
pub fn shape_report_exec() -> (p: Vec<Tok>)
    ensures
        p@ == shape_report(),
        shape_wf(p@, 5),
{
    let p = vec![
        Tok::Open(1), Tok::StarOrDigits, Tok::Close(1), Tok::Lit(' '), Tok::Open(2),
        Tok::Plus(CharClass::AsciiDigit), Tok::Close(2), Tok::Lit(' '), Tok::Open(3),
        Tok::Plus(CharClass::AsciiDigit), Tok::Close(3), Tok::Lit(' '), Tok::Lit('v'),
        Tok::Lit(':'), Tok::Open(4), Tok::LazyPlus(CharClass::AnyButNewline), Tok::Close(4),
        Tok::End,
    ];
    assert(p@ =~= shape_report());
    p
}

/// The shape `([.0-9]+ .*) v:(.+?)$`.
pub open spec fn shape_swstart() -> Seq<Tok> {
    seq![
        Tok::Open(1), Tok::Plus(CharClass::DigitOrDot), Tok::Lit(' '),
        Tok::Star(CharClass::AnyButNewline), Tok::Close(1), Tok::Lit(' '), Tok::Lit('v'),
        Tok::Lit(':'), Tok::Open(2), Tok::LazyPlus(CharClass::AnyButNewline), Tok::Close(2),
        Tok::End,
    ]
}

/// Builds the shape of [`shape_swstart`].
pub fn shape_swstart_exec() -> (p: Vec<Tok>)
    ensures
        p@ == shape_swstart(),
        shape_wf(p@, 3),
{
    let p = vec![
        Tok::Open(1), Tok::Plus(CharClass::DigitOrDot), Tok::Lit(' '),
        Tok::Star(CharClass::AnyButNewline), Tok::Close(1), Tok::Lit(' '), Tok::Lit('v'),
        Tok::Lit(':'), Tok::Open(2), Tok::LazyPlus(CharClass::AnyButNewline), Tok::Close(2),
        Tok::End,
    ];
    assert(p@ =~= shape_swstart());
    p
}

/// The shape `([0-9]+) ([0-9]+) ([DP]) v:(.+?)$`.
pub open spec fn shape_unbuckled() -> Seq<Tok> {
    seq![
        Tok::Open(1), Tok::Plus(CharClass::AsciiDigit), Tok::Close(1), Tok::Lit(' '),
        Tok::Open(2), Tok::Plus(CharClass::AsciiDigit), Tok::Close(2), Tok::Lit(' '),
        Tok::Open(3), Tok::One(CharClass::EitherOf('D', 'P')), Tok::Close(3), Tok::Lit(' '),
        Tok::Lit('v'), Tok::Lit(':'), Tok::Open(4), Tok::LazyPlus(CharClass::AnyButNewline),
        Tok::Close(4), Tok::End,
    ]
}

/// Builds the shape of [`shape_unbuckled`].
pub fn shape_unbuckled_exec() -> (p: Vec<Tok>)
    ensures
        p@ == shape_unbuckled(),
        shape_wf(p@, 5),
{
    let p = vec![
        Tok::Open(1), Tok::Plus(CharClass::AsciiDigit), Tok::Close(1), Tok::Lit(' '),
        Tok::Open(2), Tok::Plus(CharClass::AsciiDigit), Tok::Close(2), Tok::Lit(' '),
        Tok::Open(3), Tok::One(CharClass::EitherOf('D', 'P')), Tok::Close(3), Tok::Lit(' '),
        Tok::Lit('v'), Tok::Lit(':'), Tok::Open(4), Tok::LazyPlus(CharClass::AnyButNewline),
        Tok::Close(4), Tok::End,
    ];
    assert(p@ =~= shape_unbuckled());
    p
}

/// The shape `([0-9]+) v:(.+?)$`.
pub open spec fn shape_one_number() -> Seq<Tok> {
    seq![
        Tok::Open(1), Tok::Plus(CharClass::AsciiDigit), Tok::Close(1), Tok::Lit(' '),
        Tok::Lit('v'), Tok::Lit(':'), Tok::Open(2), Tok::LazyPlus(CharClass::AnyButNewline),
        Tok::Close(2), Tok::End,
    ]
}

/// Builds the shape of [`shape_one_number`].
pub fn shape_one_number_exec() -> (p: Vec<Tok>)
    ensures
        p@ == shape_one_number(),
        shape_wf(p@, 3),
{
    let p = vec![
        Tok::Open(1), Tok::Plus(CharClass::AsciiDigit), Tok::Close(1), Tok::Lit(' '),
        Tok::Lit('v'), Tok::Lit(':'), Tok::Open(2), Tok::LazyPlus(CharClass::AnyButNewline),
        Tok::Close(2), Tok::End,
    ];
    assert(p@ =~= shape_one_number());
    p
}

/// The shape `([0-9]+) ([0-9]+) (.*) v:(.+?)$`.
pub open spec fn shape_zone_ok() -> Seq<Tok> {
    seq![
        Tok::Open(1), Tok::Plus(CharClass::AsciiDigit), Tok::Close(1), Tok::Lit(' '),
        Tok::Open(2), Tok::Plus(CharClass::AsciiDigit), Tok::Close(2), Tok::Lit(' '),
        Tok::Open(3), Tok::Star(CharClass::AnyButNewline), Tok::Close(3), Tok::Lit(' '),
        Tok::Lit('v'), Tok::Lit(':'), Tok::Open(4), Tok::LazyPlus(CharClass::AnyButNewline),
        Tok::Close(4), Tok::End,
    ]
}

/// Builds the shape of [`shape_zone_ok`].
pub fn shape_zone_ok_exec() -> (p: Vec<Tok>)
    ensures
        p@ == shape_zone_ok(),
        shape_wf(p@, 5),
{
    let p = vec![
        Tok::Open(1), Tok::Plus(CharClass::AsciiDigit), Tok::Close(1), Tok::Lit(' '),
        Tok::Open(2), Tok::Plus(CharClass::AsciiDigit), Tok::Close(2), Tok::Lit(' '),
        Tok::Open(3), Tok::Star(CharClass::AnyButNewline), Tok::Close(3), Tok::Lit(' '),
        Tok::Lit('v'), Tok::Lit(':'), Tok::Open(4), Tok::LazyPlus(CharClass::AnyButNewline),
        Tok::Close(4), Tok::End,
    ];
    assert(p@ =~= shape_zone_ok());
    p
}

/// The shape `([0-9]+) ([0-9]+) ([0-9]+) ([0-9]+) v:(.+?)$`.
pub open spec fn shape_four_numbers() -> Seq<Tok> {
    seq![
        Tok::Open(1), Tok::Plus(CharClass::AsciiDigit), Tok::Close(1), Tok::Lit(' '),
        Tok::Open(2), Tok::Plus(CharClass::AsciiDigit), Tok::Close(2), Tok::Lit(' '),
        Tok::Open(3), Tok::Plus(CharClass::AsciiDigit), Tok::Close(3), Tok::Lit(' '),
        Tok::Open(4), Tok::Plus(CharClass::AsciiDigit), Tok::Close(4), Tok::Lit(' '),
        Tok::Lit('v'), Tok::Lit(':'), Tok::Open(5), Tok::LazyPlus(CharClass::AnyButNewline),
        Tok::Close(5), Tok::End,
    ]
}

/// Builds the shape of [`shape_four_numbers`].
pub fn shape_four_numbers_exec() -> (p: Vec<Tok>)
    ensures
        p@ == shape_four_numbers(),
        shape_wf(p@, 6),
{
    let p = vec![
        Tok::Open(1), Tok::Plus(CharClass::AsciiDigit), Tok::Close(1), Tok::Lit(' '),
        Tok::Open(2), Tok::Plus(CharClass::AsciiDigit), Tok::Close(2), Tok::Lit(' '),
        Tok::Open(3), Tok::Plus(CharClass::AsciiDigit), Tok::Close(3), Tok::Lit(' '),
        Tok::Open(4), Tok::Plus(CharClass::AsciiDigit), Tok::Close(4), Tok::Lit(' '),
        Tok::Lit('v'), Tok::Lit(':'), Tok::Open(5), Tok::LazyPlus(CharClass::AnyButNewline),
        Tok::Close(5), Tok::End,
    ];
    assert(p@ =~= shape_four_numbers());
    p
}

/// The shape `([0-9]+) ([0-9]+) ([0-9]+) ([0-9]+) (ENTRY|EXIT) v:(.+?)$`.
pub open spec fn shape_zone_transition() -> Seq<Tok> {
    seq![
        Tok::Open(1), Tok::Plus(CharClass::AsciiDigit), Tok::Close(1), Tok::Lit(' '),
        Tok::Open(2), Tok::Plus(CharClass::AsciiDigit), Tok::Close(2), Tok::Lit(' '),
        Tok::Open(3), Tok::Plus(CharClass::AsciiDigit), Tok::Close(3), Tok::Lit(' '),
        Tok::Open(4), Tok::Plus(CharClass::AsciiDigit), Tok::Close(4), Tok::Lit(' '),
        Tok::Open(5), Tok::Words(WordSet::Transition), Tok::Close(5), Tok::Lit(' '),
        Tok::Lit('v'), Tok::Lit(':'), Tok::Open(6), Tok::LazyPlus(CharClass::AnyButNewline),
        Tok::Close(6), Tok::End,
    ]
}

/// Builds the shape of [`shape_zone_transition`].
pub fn shape_zone_transition_exec() -> (p: Vec<Tok>)
    ensures
        p@ == shape_zone_transition(),
        shape_wf(p@, 7),
{
    let p = vec![
        Tok::Open(1), Tok::Plus(CharClass::AsciiDigit), Tok::Close(1), Tok::Lit(' '),
        Tok::Open(2), Tok::Plus(CharClass::AsciiDigit), Tok::Close(2), Tok::Lit(' '),
        Tok::Open(3), Tok::Plus(CharClass::AsciiDigit), Tok::Close(3), Tok::Lit(' '),
        Tok::Open(4), Tok::Plus(CharClass::AsciiDigit), Tok::Close(4), Tok::Lit(' '),
        Tok::Open(5), Tok::Words(WordSet::Transition), Tok::Close(5), Tok::Lit(' '),
        Tok::Lit('v'), Tok::Lit(':'), Tok::Open(6), Tok::LazyPlus(CharClass::AnyButNewline),
        Tok::Close(6), Tok::End,
    ];
    assert(p@ =~= shape_zone_transition());
    p
}

/// The shape `([0-9]+) ([0-9]+) ([0-9]+) ([0-9]+) ([0-9]+) ([0-9]+)(.*) v:(.+?)$`.
pub open spec fn shape_trip() -> Seq<Tok> {
    seq![
        Tok::Open(1), Tok::Plus(CharClass::AsciiDigit), Tok::Close(1), Tok::Lit(' '),
        Tok::Open(2), Tok::Plus(CharClass::AsciiDigit), Tok::Close(2), Tok::Lit(' '),
        Tok::Open(3), Tok::Plus(CharClass::AsciiDigit), Tok::Close(3), Tok::Lit(' '),
        Tok::Open(4), Tok::Plus(CharClass::AsciiDigit), Tok::Close(4), Tok::Lit(' '),
        Tok::Open(5), Tok::Plus(CharClass::AsciiDigit), Tok::Close(5), Tok::Lit(' '),
        Tok::Open(6), Tok::Plus(CharClass::AsciiDigit), Tok::Close(6), Tok::Open(7),
        Tok::Star(CharClass::AnyButNewline), Tok::Close(7), Tok::Lit(' '), Tok::Lit('v'),
        Tok::Lit(':'), Tok::Open(8), Tok::LazyPlus(CharClass::AnyButNewline), Tok::Close(8),
        Tok::End,
    ]
}

/// Builds the shape of [`shape_trip`].
pub fn shape_trip_exec() -> (p: Vec<Tok>)
    ensures
        p@ == shape_trip(),
        shape_wf(p@, 9),
{
    let p = vec![
        Tok::Open(1), Tok::Plus(CharClass::AsciiDigit), Tok::Close(1), Tok::Lit(' '),
        Tok::Open(2), Tok::Plus(CharClass::AsciiDigit), Tok::Close(2), Tok::Lit(' '),
        Tok::Open(3), Tok::Plus(CharClass::AsciiDigit), Tok::Close(3), Tok::Lit(' '),
        Tok::Open(4), Tok::Plus(CharClass::AsciiDigit), Tok::Close(4), Tok::Lit(' '),
        Tok::Open(5), Tok::Plus(CharClass::AsciiDigit), Tok::Close(5), Tok::Lit(' '),
        Tok::Open(6), Tok::Plus(CharClass::AsciiDigit), Tok::Close(6), Tok::Open(7),
        Tok::Star(CharClass::AnyButNewline), Tok::Close(7), Tok::Lit(' '), Tok::Lit('v'),
        Tok::Lit(':'), Tok::Open(8), Tok::LazyPlus(CharClass::AnyButNewline), Tok::Close(8),
        Tok::End,
    ];
    assert(p@ =~= shape_trip());
    p
}

/// The shape `\[UNIT\s+(\d+)\]`.
pub open spec fn shape_unit_tag() -> Seq<Tok> {
    seq![
        Tok::Lit('['), Tok::Lit('U'), Tok::Lit('N'), Tok::Lit('I'), Tok::Lit('T'),
        Tok::Plus(CharClass::Space), Tok::Open(1), Tok::Plus(CharClass::Digit), Tok::Close(1),
        Tok::Lit(']'),
    ]
}

/// Builds the shape of [`shape_unit_tag`].
pub fn shape_unit_tag_exec() -> (p: Vec<Tok>)
    ensures
        p@ == shape_unit_tag(),
        shape_wf(p@, 2),
{
    let p = vec![
        Tok::Lit('['), Tok::Lit('U'), Tok::Lit('N'), Tok::Lit('I'), Tok::Lit('T'),
        Tok::Plus(CharClass::Space), Tok::Open(1), Tok::Plus(CharClass::Digit), Tok::Close(1),
        Tok::Lit(']'),
    ];
    assert(p@ =~= shape_unit_tag());
    p
}

/// The shape `^"([^@]+) @ ([^"]+)",[^,]+,[^,]+,"[^<]+ <== \[EVENT (\d+) (\d+) [^\s]+ (SWSTART) FC ([^v]+) v:\d+\]"$`.
pub open spec fn shape_firmware_line() -> Seq<Tok> {
    seq![
        Tok::Start, Tok::Lit('"'), Tok::Open(1), Tok::Plus(CharClass::AllBut('@')),
        Tok::Close(1), Tok::Lit(' '), Tok::Lit('@'), Tok::Lit(' '), Tok::Open(2),
        Tok::Plus(CharClass::AllBut('"')), Tok::Close(2), Tok::Lit('"'), Tok::Lit(','),
        Tok::Plus(CharClass::AllBut(',')), Tok::Lit(','), Tok::Plus(CharClass::AllBut(',')),
        Tok::Lit(','), Tok::Lit('"'), Tok::Plus(CharClass::AllBut('<')), Tok::Lit(' '),
        Tok::Lit('<'), Tok::Lit('='), Tok::Lit('='), Tok::Lit(' '), Tok::Lit('['),
        Tok::Lit('E'), Tok::Lit('V'), Tok::Lit('E'), Tok::Lit('N'), Tok::Lit('T'),
        Tok::Lit(' '), Tok::Open(3), Tok::Plus(CharClass::Digit), Tok::Close(3), Tok::Lit(' '),
        Tok::Open(4), Tok::Plus(CharClass::Digit), Tok::Close(4), Tok::Lit(' '),
        Tok::Plus(CharClass::NonSpace), Tok::Lit(' '), Tok::Open(5), Tok::Lit('S'),
        Tok::Lit('W'), Tok::Lit('S'), Tok::Lit('T'), Tok::Lit('A'), Tok::Lit('R'),
        Tok::Lit('T'), Tok::Close(5), Tok::Lit(' '), Tok::Lit('F'), Tok::Lit('C'),
        Tok::Lit(' '), Tok::Open(6), Tok::Plus(CharClass::AllBut('v')), Tok::Close(6),
        Tok::Lit(' '), Tok::Lit('v'), Tok::Lit(':'), Tok::Plus(CharClass::Digit),
        Tok::Lit(']'), Tok::Lit('"'), Tok::End,
    ]
}

/// Builds the shape of [`shape_firmware_line`].
pub fn shape_firmware_line_exec() -> (p: Vec<Tok>)
    ensures
        p@ == shape_firmware_line(),
        shape_wf(p@, 7),
{
    let p = vec![
        Tok::Start, Tok::Lit('"'), Tok::Open(1), Tok::Plus(CharClass::AllBut('@')),
        Tok::Close(1), Tok::Lit(' '), Tok::Lit('@'), Tok::Lit(' '), Tok::Open(2),
        Tok::Plus(CharClass::AllBut('"')), Tok::Close(2), Tok::Lit('"'), Tok::Lit(','),
        Tok::Plus(CharClass::AllBut(',')), Tok::Lit(','), Tok::Plus(CharClass::AllBut(',')),
        Tok::Lit(','), Tok::Lit('"'), Tok::Plus(CharClass::AllBut('<')), Tok::Lit(' '),
        Tok::Lit('<'), Tok::Lit('='), Tok::Lit('='), Tok::Lit(' '), Tok::Lit('['),
        Tok::Lit('E'), Tok::Lit('V'), Tok::Lit('E'), Tok::Lit('N'), Tok::Lit('T'),
        Tok::Lit(' '), Tok::Open(3), Tok::Plus(CharClass::Digit), Tok::Close(3), Tok::Lit(' '),
        Tok::Open(4), Tok::Plus(CharClass::Digit), Tok::Close(4), Tok::Lit(' '),
        Tok::Plus(CharClass::NonSpace), Tok::Lit(' '), Tok::Open(5), Tok::Lit('S'),
        Tok::Lit('W'), Tok::Lit('S'), Tok::Lit('T'), Tok::Lit('A'), Tok::Lit('R'),
        Tok::Lit('T'), Tok::Close(5), Tok::Lit(' '), Tok::Lit('F'), Tok::Lit('C'),
        Tok::Lit(' '), Tok::Open(6), Tok::Plus(CharClass::AllBut('v')), Tok::Close(6),
        Tok::Lit(' '), Tok::Lit('v'), Tok::Lit(':'), Tok::Plus(CharClass::Digit),
        Tok::Lit(']'), Tok::Lit('"'), Tok::End,
    ];
    assert(p@ =~= shape_firmware_line());
    p
}

/// The shape `^"([^@]+) @ ([^"]+)",[^,]+,[^,]+,"([^<]+) <== \[EVENT (\d+) (\d+) (-?\d+)/(-?\d+)/(\d+)/(-?\d+)/(\d+) (\w+) ([^\]]+)\]"$`.
pub open spec fn shape_event_line() -> Seq<Tok> {
    seq![
        Tok::Start, Tok::Lit('"'), Tok::Open(1), Tok::Plus(CharClass::AllBut('@')),
        Tok::Close(1), Tok::Lit(' '), Tok::Lit('@'), Tok::Lit(' '), Tok::Open(2),
        Tok::Plus(CharClass::AllBut('"')), Tok::Close(2), Tok::Lit('"'), Tok::Lit(','),
        Tok::Plus(CharClass::AllBut(',')), Tok::Lit(','), Tok::Plus(CharClass::AllBut(',')),
        Tok::Lit(','), Tok::Lit('"'), Tok::Open(3), Tok::Plus(CharClass::AllBut('<')),
        Tok::Close(3), Tok::Lit(' '), Tok::Lit('<'), Tok::Lit('='), Tok::Lit('='),
        Tok::Lit(' '), Tok::Lit('['), Tok::Lit('E'), Tok::Lit('V'), Tok::Lit('E'),
        Tok::Lit('N'), Tok::Lit('T'), Tok::Lit(' '), Tok::Open(4), Tok::Plus(CharClass::Digit),
        Tok::Close(4), Tok::Lit(' '), Tok::Open(5), Tok::Plus(CharClass::Digit), Tok::Close(5),
        Tok::Lit(' '), Tok::Open(6), Tok::OptLit('-'), Tok::Plus(CharClass::Digit),
        Tok::Close(6), Tok::Lit('/'), Tok::Open(7), Tok::OptLit('-'),
        Tok::Plus(CharClass::Digit), Tok::Close(7), Tok::Lit('/'), Tok::Open(8),
        Tok::Plus(CharClass::Digit), Tok::Close(8), Tok::Lit('/'), Tok::Open(9),
        Tok::OptLit('-'), Tok::Plus(CharClass::Digit), Tok::Close(9), Tok::Lit('/'),
        Tok::Open(10), Tok::Plus(CharClass::Digit), Tok::Close(10), Tok::Lit(' '),
        Tok::Open(11), Tok::Plus(CharClass::Word), Tok::Close(11), Tok::Lit(' '),
        Tok::Open(12), Tok::Plus(CharClass::AllBut(']')), Tok::Close(12), Tok::Lit(']'),
        Tok::Lit('"'), Tok::End,
    ]
}

/// Builds the shape of [`shape_event_line`].
pub fn shape_event_line_exec() -> (p: Vec<Tok>)
    ensures
        p@ == shape_event_line(),
        shape_wf(p@, 13),
{
    let p = vec![
        Tok::Start, Tok::Lit('"'), Tok::Open(1), Tok::Plus(CharClass::AllBut('@')),
        Tok::Close(1), Tok::Lit(' '), Tok::Lit('@'), Tok::Lit(' '), Tok::Open(2),
        Tok::Plus(CharClass::AllBut('"')), Tok::Close(2), Tok::Lit('"'), Tok::Lit(','),
        Tok::Plus(CharClass::AllBut(',')), Tok::Lit(','), Tok::Plus(CharClass::AllBut(',')),
        Tok::Lit(','), Tok::Lit('"'), Tok::Open(3), Tok::Plus(CharClass::AllBut('<')),
        Tok::Close(3), Tok::Lit(' '), Tok::Lit('<'), Tok::Lit('='), Tok::Lit('='),
        Tok::Lit(' '), Tok::Lit('['), Tok::Lit('E'), Tok::Lit('V'), Tok::Lit('E'),
        Tok::Lit('N'), Tok::Lit('T'), Tok::Lit(' '), Tok::Open(4), Tok::Plus(CharClass::Digit),
        Tok::Close(4), Tok::Lit(' '), Tok::Open(5), Tok::Plus(CharClass::Digit), Tok::Close(5),
        Tok::Lit(' '), Tok::Open(6), Tok::OptLit('-'), Tok::Plus(CharClass::Digit),
        Tok::Close(6), Tok::Lit('/'), Tok::Open(7), Tok::OptLit('-'),
        Tok::Plus(CharClass::Digit), Tok::Close(7), Tok::Lit('/'), Tok::Open(8),
        Tok::Plus(CharClass::Digit), Tok::Close(8), Tok::Lit('/'), Tok::Open(9),
        Tok::OptLit('-'), Tok::Plus(CharClass::Digit), Tok::Close(9), Tok::Lit('/'),
        Tok::Open(10), Tok::Plus(CharClass::Digit), Tok::Close(10), Tok::Lit(' '),
        Tok::Open(11), Tok::Plus(CharClass::Word), Tok::Close(11), Tok::Lit(' '),
        Tok::Open(12), Tok::Plus(CharClass::AllBut(']')), Tok::Close(12), Tok::Lit(']'),
        Tok::Lit('"'), Tok::End,
    ];
    assert(p@ =~= shape_event_line());
    p
}

} // verus!
