//! How a parser is chosen by its configured name: the first pattern, in
//! the order they are tried, that occurs in the name decides.
use crate::parsers::parser_for_name;
use crate::text::{occurs_at, text_contains};
use vstd::prelude::*;

verus! {

/// Where a text holds a pattern, it holds each of the pattern's prefixes.
pub proof fn lemma_contains_prefix(text: Seq<char>, needle: Seq<char>, n: int)
    requires
        text_contains(text, needle),
        0 <= n <= needle.len(),
    ensures
        text_contains(text, needle.take(n)),
{
    let i = choose|i: int| occurs_at(text, needle, i);
    assert(text.subrange(i, i + n) =~= needle.take(n)) by {
        assert(text.subrange(i, i + needle.len()) == needle);
        assert forall|j: int| 0 <= j < n implies text.subrange(i, i + n)[j] == needle.take(n)[j] by {
            assert(text.subrange(i, i + needle.len())[j] == text[i + j]);
        }
    }
    assert(occurs_at(text, needle.take(n), i));
}

/// The longer patterns that begin with a shorter one: a name without the
/// shorter pattern holds none of them.
pub proof fn lemma_longer_patterns(name: Seq<char>)
    ensures
        text_contains(name, "GeniusReportParserV2"@) ==> text_contains(name, "Genius"@),
        text_contains(name, "UCLogicV1"@) ==> text_contains(name, "UCLogic"@),
        text_contains(name, "UCLogicV2"@) ==> text_contains(name, "UCLogic"@),
        text_contains(name, "UCLogicTilt"@) ==> text_contains(name, "UCLogic"@),
        text_contains(name, "XP_PenGen2"@) ==> text_contains(name, "XP_Pen"@),
        text_contains(name, "XP_PenDeco03"@) ==> text_contains(name, "XP_Pen"@),
        text_contains(name, "XP_PenOffsetPressure"@) ==> text_contains(name, "XP_Pen"@),
        text_contains(name, "XP_PenOffsetAux"@) ==> text_contains(name, "XP_Pen"@),
        text_contains(name, "VeikkA15"@) ==> text_contains(name, "Veikk"@),
        text_contains(name, "VeikkTilt"@) ==> text_contains(name, "Veikk"@),
        text_contains(name, "VeikkV1"@) ==> text_contains(name, "Veikk"@),
{
    reveal_strlit("Genius");
    reveal_strlit("UCLogic");
    reveal_strlit("XP_Pen");
    reveal_strlit("Veikk");
    reveal_strlit("GeniusReportParserV2");
    assert("GeniusReportParserV2"@.take(6) =~= "Genius"@);
    if text_contains(name, "GeniusReportParserV2"@) {
        lemma_contains_prefix(name, "GeniusReportParserV2"@, 6);
    }
    reveal_strlit("UCLogicV1");
    assert("UCLogicV1"@.take(7) =~= "UCLogic"@);
    if text_contains(name, "UCLogicV1"@) {
        lemma_contains_prefix(name, "UCLogicV1"@, 7);
    }
    reveal_strlit("UCLogicV2");
    assert("UCLogicV2"@.take(7) =~= "UCLogic"@);
    if text_contains(name, "UCLogicV2"@) {
        lemma_contains_prefix(name, "UCLogicV2"@, 7);
    }
    reveal_strlit("UCLogicTilt");
    assert("UCLogicTilt"@.take(7) =~= "UCLogic"@);
    if text_contains(name, "UCLogicTilt"@) {
        lemma_contains_prefix(name, "UCLogicTilt"@, 7);
    }
    reveal_strlit("XP_PenGen2");
    assert("XP_PenGen2"@.take(6) =~= "XP_Pen"@);
    if text_contains(name, "XP_PenGen2"@) {
        lemma_contains_prefix(name, "XP_PenGen2"@, 6);
    }
    reveal_strlit("XP_PenDeco03");
    assert("XP_PenDeco03"@.take(6) =~= "XP_Pen"@);
    if text_contains(name, "XP_PenDeco03"@) {
        lemma_contains_prefix(name, "XP_PenDeco03"@, 6);
    }
    reveal_strlit("XP_PenOffsetPressure");
    assert("XP_PenOffsetPressure"@.take(6) =~= "XP_Pen"@);
    if text_contains(name, "XP_PenOffsetPressure"@) {
        lemma_contains_prefix(name, "XP_PenOffsetPressure"@, 6);
    }
    reveal_strlit("XP_PenOffsetAux");
    assert("XP_PenOffsetAux"@.take(6) =~= "XP_Pen"@);
    if text_contains(name, "XP_PenOffsetAux"@) {
        lemma_contains_prefix(name, "XP_PenOffsetAux"@, 6);
    }
    reveal_strlit("VeikkA15");
    assert("VeikkA15"@.take(5) =~= "Veikk"@);
    if text_contains(name, "VeikkA15"@) {
        lemma_contains_prefix(name, "VeikkA15"@, 5);
    }
    reveal_strlit("VeikkTilt");
    assert("VeikkTilt"@.take(5) =~= "Veikk"@);
    if text_contains(name, "VeikkTilt"@) {
        lemma_contains_prefix(name, "VeikkTilt"@, 5);
    }
    reveal_strlit("VeikkV1");
    assert("VeikkV1"@.take(5) =~= "Veikk"@);
    if text_contains(name, "VeikkV1"@) {
        lemma_contains_prefix(name, "VeikkV1"@, 5);
    }
}

/// The name holds a pattern of the vendors tried first: Acepen, Bosto,
/// FlooGoo, Genius, Lifetec, RobotPen, the one-byte-prefix layout, 10moon,
/// UC-Logic, WoodPad, XenceLabs or XENX.
pub open spec fn names_other_vendor(name: Seq<char>) -> bool {
    text_contains(name, "Acepen"@)
        || text_contains(name, "Bosto"@)
        || text_contains(name, "FlooGoo"@)
        || text_contains(name, "Genius"@)
        || text_contains(name, "Lifetec"@)
        || text_contains(name, "RobotPen"@)
        || text_contains(name, "SkipByteTabletReportParser"@)
        || text_contains(name, "10moon"@)
        || text_contains(name, "UCLogic"@)
        || text_contains(name, "WoodPad"@)
        || text_contains(name, "XenceLabs"@)
        || text_contains(name, "XENX"@)
}

/// The name holds a pattern of the vendors tried next: XP-Pen, Veikk, or
/// Huion's Inspiroy and Giano.
pub open spec fn names_xp_pen_veikk_or_huion(name: Seq<char>) -> bool {
    text_contains(name, "XP_Pen"@)
        || text_contains(name, "Veikk"@)
        || text_contains(name, "Inspiroy"@)
        || text_contains(name, "Giano"@)
}

/// A name that contains "Acepen" yields the Acepen parser.
pub proof fn lemma_choice_acepen(name: Seq<char>)
    requires
        text_contains(name, "Acepen"@),
    ensures
        parser_for_name(name) is Acepen,
{
}

/// A name that contains "Bosto", and none of the patterns tried
/// before it, yields the Bosto parser.
pub proof fn lemma_choice_bosto(name: Seq<char>)
    requires
        text_contains(name, "Bosto"@),
        !text_contains(name, "Acepen"@),
    ensures
        parser_for_name(name) is Bosto,
{
}

/// A name that contains "FlooGoo", and none of the patterns tried
/// before it, yields the FlooGoo parser.
pub proof fn lemma_choice_floo_goo(name: Seq<char>)
    requires
        text_contains(name, "FlooGoo"@),
        !text_contains(name, "Acepen"@),
        !text_contains(name, "Bosto"@),
    ensures
        parser_for_name(name) is FlooGoo,
{
}

/// A name that contains "GeniusReportParserV2", and none of the patterns tried
/// before it, yields the second Genius parser.
pub proof fn lemma_choice_genius_v2(name: Seq<char>)
    requires
        text_contains(name, "GeniusReportParserV2"@),
        !text_contains(name, "Acepen"@),
        !text_contains(name, "Bosto"@),
        !text_contains(name, "FlooGoo"@),
    ensures
        parser_for_name(name) is GeniusV2,
{
}

/// A name that contains "Genius", and none of the patterns tried
/// before it, yields the first Genius parser.
pub proof fn lemma_choice_genius_v1(name: Seq<char>)
    requires
        text_contains(name, "Genius"@),
        !text_contains(name, "Acepen"@),
        !text_contains(name, "Bosto"@),
        !text_contains(name, "FlooGoo"@),
        !text_contains(name, "GeniusReportParserV2"@),
    ensures
        parser_for_name(name) is GeniusV1,
{
}

/// A name that contains "Lifetec", and none of the patterns tried
/// before it, yields the Lifetec parser.
pub proof fn lemma_choice_lifetec(name: Seq<char>)
    requires
        text_contains(name, "Lifetec"@),
        !text_contains(name, "Acepen"@),
        !text_contains(name, "Bosto"@),
        !text_contains(name, "FlooGoo"@),
        !text_contains(name, "Genius"@),
    ensures
        parser_for_name(name) is Lifetec,
{
    lemma_longer_patterns(name);
}

/// A name that contains "RobotPen", and none of the patterns tried
/// before it, yields the RobotPen parser.
pub proof fn lemma_choice_robot_pen(name: Seq<char>)
    requires
        text_contains(name, "RobotPen"@),
        !text_contains(name, "Acepen"@),
        !text_contains(name, "Bosto"@),
        !text_contains(name, "FlooGoo"@),
        !text_contains(name, "Genius"@),
        !text_contains(name, "Lifetec"@),
    ensures
        parser_for_name(name) is RobotPen,
{
    lemma_longer_patterns(name);
}

/// A name that contains "SkipByteTabletReportParser", and none of the patterns tried
/// before it, yields the one-byte-prefix parser.
pub proof fn lemma_choice_skip_byte(name: Seq<char>)
    requires
        text_contains(name, "SkipByteTabletReportParser"@),
        !text_contains(name, "Acepen"@),
        !text_contains(name, "Bosto"@),
        !text_contains(name, "FlooGoo"@),
        !text_contains(name, "Genius"@),
        !text_contains(name, "Lifetec"@),
        !text_contains(name, "RobotPen"@),
    ensures
        parser_for_name(name) is SkipByte,
{
    lemma_longer_patterns(name);
}

/// A name that contains "10moon", and none of the patterns tried
/// before it, yields the 10moon parser.
pub proof fn lemma_choice_ten_moon(name: Seq<char>)
    requires
        text_contains(name, "10moon"@),
        !text_contains(name, "Acepen"@),
        !text_contains(name, "Bosto"@),
        !text_contains(name, "FlooGoo"@),
        !text_contains(name, "Genius"@),
        !text_contains(name, "Lifetec"@),
        !text_contains(name, "RobotPen"@),
        !text_contains(name, "SkipByteTabletReportParser"@),
    ensures
        parser_for_name(name) is TenMoon,
{
    lemma_longer_patterns(name);
}

/// A name that contains "UCLogicV1", and none of the patterns tried
/// before it, yields the UC-Logic V1 parser.
pub proof fn lemma_choice_uclogic_v1(name: Seq<char>)
    requires
        text_contains(name, "UCLogicV1"@),
        !text_contains(name, "Acepen"@),
        !text_contains(name, "Bosto"@),
        !text_contains(name, "FlooGoo"@),
        !text_contains(name, "Genius"@),
        !text_contains(name, "Lifetec"@),
        !text_contains(name, "RobotPen"@),
        !text_contains(name, "SkipByteTabletReportParser"@),
        !text_contains(name, "10moon"@),
    ensures
        parser_for_name(name) is UCLogicV1,
{
    lemma_longer_patterns(name);
}

/// A name that contains "UCLogicV2", and none of the patterns tried
/// before it, yields the UC-Logic V2 parser.
pub proof fn lemma_choice_uclogic_v2(name: Seq<char>)
    requires
        text_contains(name, "UCLogicV2"@),
        !text_contains(name, "Acepen"@),
        !text_contains(name, "Bosto"@),
        !text_contains(name, "FlooGoo"@),
        !text_contains(name, "Genius"@),
        !text_contains(name, "Lifetec"@),
        !text_contains(name, "RobotPen"@),
        !text_contains(name, "SkipByteTabletReportParser"@),
        !text_contains(name, "10moon"@),
        !text_contains(name, "UCLogicV1"@),
    ensures
        parser_for_name(name) is UCLogicV2,
{
    lemma_longer_patterns(name);
}

/// A name that contains "UCLogicTilt", and none of the patterns tried
/// before it, yields the UC-Logic tilt parser.
pub proof fn lemma_choice_uclogic_tilt(name: Seq<char>)
    requires
        text_contains(name, "UCLogicTilt"@),
        !text_contains(name, "Acepen"@),
        !text_contains(name, "Bosto"@),
        !text_contains(name, "FlooGoo"@),
        !text_contains(name, "Genius"@),
        !text_contains(name, "Lifetec"@),
        !text_contains(name, "RobotPen"@),
        !text_contains(name, "SkipByteTabletReportParser"@),
        !text_contains(name, "10moon"@),
        !text_contains(name, "UCLogicV1"@),
        !text_contains(name, "UCLogicV2"@),
    ensures
        parser_for_name(name) is UCLogicTilt,
{
    lemma_longer_patterns(name);
}

/// A name that contains "UCLogic", and none of the patterns tried
/// before it, yields the plain UC-Logic parser.
pub proof fn lemma_choice_uclogic(name: Seq<char>)
    requires
        text_contains(name, "UCLogic"@),
        !text_contains(name, "Acepen"@),
        !text_contains(name, "Bosto"@),
        !text_contains(name, "FlooGoo"@),
        !text_contains(name, "Genius"@),
        !text_contains(name, "Lifetec"@),
        !text_contains(name, "RobotPen"@),
        !text_contains(name, "SkipByteTabletReportParser"@),
        !text_contains(name, "10moon"@),
        !text_contains(name, "UCLogicV1"@),
        !text_contains(name, "UCLogicV2"@),
        !text_contains(name, "UCLogicTilt"@),
    ensures
        parser_for_name(name) is UCLogic,
{
    lemma_longer_patterns(name);
}

/// A name that contains "WoodPad", and none of the patterns tried
/// before it, yields the ViewSonic WoodPad parser.
pub proof fn lemma_choice_view_sonic(name: Seq<char>)
    requires
        text_contains(name, "WoodPad"@),
        !text_contains(name, "Acepen"@),
        !text_contains(name, "Bosto"@),
        !text_contains(name, "FlooGoo"@),
        !text_contains(name, "Genius"@),
        !text_contains(name, "Lifetec"@),
        !text_contains(name, "RobotPen"@),
        !text_contains(name, "SkipByteTabletReportParser"@),
        !text_contains(name, "10moon"@),
        !text_contains(name, "UCLogic"@),
    ensures
        parser_for_name(name) is ViewSonic,
{
    lemma_longer_patterns(name);
}

/// A name that contains "XenceLabs", and none of the patterns tried
/// before it, yields the XenceLabs parser.
pub proof fn lemma_choice_xence_labs(name: Seq<char>)
    requires
        text_contains(name, "XenceLabs"@),
        !text_contains(name, "Acepen"@),
        !text_contains(name, "Bosto"@),
        !text_contains(name, "FlooGoo"@),
        !text_contains(name, "Genius"@),
        !text_contains(name, "Lifetec"@),
        !text_contains(name, "RobotPen"@),
        !text_contains(name, "SkipByteTabletReportParser"@),
        !text_contains(name, "10moon"@),
        !text_contains(name, "UCLogic"@),
        !text_contains(name, "WoodPad"@),
    ensures
        parser_for_name(name) is XenceLabs,
{
    lemma_longer_patterns(name);
}

/// A name that contains "XENX", and none of the patterns tried
/// before it, yields the XENX parser.
pub proof fn lemma_choice_xenx(name: Seq<char>)
    requires
        text_contains(name, "XENX"@),
        !text_contains(name, "Acepen"@),
        !text_contains(name, "Bosto"@),
        !text_contains(name, "FlooGoo"@),
        !text_contains(name, "Genius"@),
        !text_contains(name, "Lifetec"@),
        !text_contains(name, "RobotPen"@),
        !text_contains(name, "SkipByteTabletReportParser"@),
        !text_contains(name, "10moon"@),
        !text_contains(name, "UCLogic"@),
        !text_contains(name, "WoodPad"@),
        !text_contains(name, "XenceLabs"@),
    ensures
        parser_for_name(name) is Xenx,
{
    lemma_longer_patterns(name);
}

/// A name that contains "XP_PenGen2", and none of the patterns tried
/// before it, yields the XP-Pen Gen2 parser.
pub proof fn lemma_choice_xp_pen_gen2(name: Seq<char>)
    requires
        text_contains(name, "XP_PenGen2"@),
        !names_other_vendor(name),
    ensures
        parser_for_name(name) is XpPenGen2,
{
    lemma_longer_patterns(name);
}

/// A name that contains "XP_PenDeco03", and none of the patterns tried
/// before it, yields the XP-Pen Deco 03 parser.
pub proof fn lemma_choice_xp_pen_deco03(name: Seq<char>)
    requires
        text_contains(name, "XP_PenDeco03"@),
        !names_other_vendor(name),
        !text_contains(name, "XP_PenGen2"@),
    ensures
        parser_for_name(name) is XpPenDeco03,
{
    lemma_longer_patterns(name);
}

/// A name that contains "XP_PenOffsetPressure", and none of the patterns tried
/// before it, yields the XP-Pen offset-pressure parser.
pub proof fn lemma_choice_xp_pen_offset_pressure(name: Seq<char>)
    requires
        text_contains(name, "XP_PenOffsetPressure"@),
        !names_other_vendor(name),
        !text_contains(name, "XP_PenGen2"@),
        !text_contains(name, "XP_PenDeco03"@),
    ensures
        parser_for_name(name) is XpPenOffsetPressure,
{
    lemma_longer_patterns(name);
}

/// A name that contains "XP_PenOffsetAux", and none of the patterns tried
/// before it, yields the XP-Pen offset-aux parser.
pub proof fn lemma_choice_xp_pen_offset_aux(name: Seq<char>)
    requires
        text_contains(name, "XP_PenOffsetAux"@),
        !names_other_vendor(name),
        !text_contains(name, "XP_PenGen2"@),
        !text_contains(name, "XP_PenDeco03"@),
        !text_contains(name, "XP_PenOffsetPressure"@),
    ensures
        parser_for_name(name) is XpPenOffsetAux,
{
    lemma_longer_patterns(name);
}

/// A name that contains "XP_Pen", and none of the patterns tried
/// before it, yields the generic XP-Pen parser.
pub proof fn lemma_choice_xp_pen(name: Seq<char>)
    requires
        text_contains(name, "XP_Pen"@),
        !names_other_vendor(name),
        !text_contains(name, "XP_PenGen2"@),
        !text_contains(name, "XP_PenDeco03"@),
        !text_contains(name, "XP_PenOffsetPressure"@),
        !text_contains(name, "XP_PenOffsetAux"@),
    ensures
        parser_for_name(name) is XpPen,
{
    lemma_longer_patterns(name);
}

/// A name that contains "VeikkA15", and none of the patterns tried
/// before it, yields the Veikk A15 parser.
pub proof fn lemma_choice_veikk_a15(name: Seq<char>)
    requires
        text_contains(name, "VeikkA15"@),
        !names_other_vendor(name),
        !text_contains(name, "XP_Pen"@),
    ensures
        parser_for_name(name) is VeikkA15,
{
    lemma_longer_patterns(name);
}

/// A name that contains "VeikkTilt", and none of the patterns tried
/// before it, yields the Veikk tilt parser.
pub proof fn lemma_choice_veikk_tilt(name: Seq<char>)
    requires
        text_contains(name, "VeikkTilt"@),
        !names_other_vendor(name),
        !text_contains(name, "XP_Pen"@),
        !text_contains(name, "VeikkA15"@),
    ensures
        parser_for_name(name) is VeikkTilt,
{
    lemma_longer_patterns(name);
}

/// A name that contains "VeikkV1", and none of the patterns tried
/// before it, yields the Veikk V1 parser.
pub proof fn lemma_choice_veikk_v1(name: Seq<char>)
    requires
        text_contains(name, "VeikkV1"@),
        !names_other_vendor(name),
        !text_contains(name, "XP_Pen"@),
        !text_contains(name, "VeikkA15"@),
        !text_contains(name, "VeikkTilt"@),
    ensures
        parser_for_name(name) is VeikkV1,
{
    lemma_longer_patterns(name);
}

/// A name that contains "Veikk", and none of the patterns tried
/// before it, yields the generic Veikk parser.
pub proof fn lemma_choice_veikk(name: Seq<char>)
    requires
        text_contains(name, "Veikk"@),
        !names_other_vendor(name),
        !text_contains(name, "XP_Pen"@),
        !text_contains(name, "VeikkA15"@),
        !text_contains(name, "VeikkTilt"@),
        !text_contains(name, "VeikkV1"@),
    ensures
        parser_for_name(name) is Veikk,
{
    lemma_longer_patterns(name);
}

/// A name that contains "Inspiroy" or "Giano", and none of the patterns tried
/// before it, yields the Huion Inspiroy parser.
pub proof fn lemma_choice_inspiroy(name: Seq<char>)
    requires
        (text_contains(name, "Inspiroy"@) || text_contains(name, "Giano"@)),
        !names_other_vendor(name),
        !text_contains(name, "XP_Pen"@),
        !text_contains(name, "Veikk"@),
    ensures
        parser_for_name(name) is Inspiroy,
{
    lemma_longer_patterns(name);
}

/// A name that contains "Wacom.Bamboo.BambooReportParser", and none of the patterns tried
/// before it, yields the Bamboo parser.
pub proof fn lemma_choice_bamboo(name: Seq<char>)
    requires
        text_contains(name, "Wacom.Bamboo.BambooReportParser"@),
        !names_other_vendor(name),
        !names_xp_pen_veikk_or_huion(name),
    ensures
        parser_for_name(name) is Bamboo,
{
    lemma_longer_patterns(name);
}

/// A name that contains "Wacom.BambooPad.BambooPadReportParser", and none of the patterns tried
/// before it, yields the Bamboo Pad parser.
pub proof fn lemma_choice_bamboo_pad(name: Seq<char>)
    requires
        text_contains(name, "Wacom.BambooPad.BambooPadReportParser"@),
        !names_other_vendor(name),
        !names_xp_pen_veikk_or_huion(name),
        !text_contains(name, "Wacom.Bamboo.BambooReportParser"@),
    ensures
        parser_for_name(name) is BambooPad,
{
    lemma_longer_patterns(name);
}

/// A name that contains "Wacom.BambooV2.BambooV2AuxReportParser", and none of the patterns tried
/// before it, yields the Bamboo V2 aux parser.
pub proof fn lemma_choice_bamboo_v2_aux(name: Seq<char>)
    requires
        text_contains(name, "Wacom.BambooV2.BambooV2AuxReportParser"@),
        !names_other_vendor(name),
        !names_xp_pen_veikk_or_huion(name),
        !text_contains(name, "Wacom.Bamboo.BambooReportParser"@),
        !text_contains(name, "Wacom.BambooPad.BambooPadReportParser"@),
    ensures
        parser_for_name(name) is BambooV2Aux,
{
    lemma_longer_patterns(name);
}

/// A name that contains "Wacom.Graphire.GraphireReportParser", and none of the patterns tried
/// before it, yields the Graphire parser.
pub proof fn lemma_choice_graphire(name: Seq<char>)
    requires
        text_contains(name, "Wacom.Graphire.GraphireReportParser"@),
        !names_other_vendor(name),
        !names_xp_pen_veikk_or_huion(name),
        !text_contains(name, "Wacom.Bamboo.BambooReportParser"@),
        !text_contains(name, "Wacom.BambooPad.BambooPadReportParser"@),
        !text_contains(name, "Wacom.BambooV2.BambooV2AuxReportParser"@),
    ensures
        parser_for_name(name) is Graphire,
{
    lemma_longer_patterns(name);
}

/// A name that contains "Wacom.Intuos.WacomDriverIntuosReportParser", and none of the patterns tried
/// before it, yields the Wacom driver Intuos parser.
pub proof fn lemma_choice_wacom_driver_intuos(name: Seq<char>)
    requires
        text_contains(name, "Wacom.Intuos.WacomDriverIntuosReportParser"@),
        !names_other_vendor(name),
        !names_xp_pen_veikk_or_huion(name),
        !text_contains(name, "Wacom.Bamboo.BambooReportParser"@),
        !text_contains(name, "Wacom.BambooPad.BambooPadReportParser"@),
        !text_contains(name, "Wacom.BambooV2.BambooV2AuxReportParser"@),
        !text_contains(name, "Wacom.Graphire.GraphireReportParser"@),
    ensures
        parser_for_name(name) is WacomDriverIntuos,
{
    lemma_longer_patterns(name);
}

/// A name that contains "Wacom.Intuos.IntuosReportParser", and none of the patterns tried
/// before it, yields the Intuos parser.
pub proof fn lemma_choice_intuos(name: Seq<char>)
    requires
        text_contains(name, "Wacom.Intuos.IntuosReportParser"@),
        !names_other_vendor(name),
        !names_xp_pen_veikk_or_huion(name),
        !text_contains(name, "Wacom.Bamboo.BambooReportParser"@),
        !text_contains(name, "Wacom.BambooPad.BambooPadReportParser"@),
        !text_contains(name, "Wacom.BambooV2.BambooV2AuxReportParser"@),
        !text_contains(name, "Wacom.Graphire.GraphireReportParser"@),
        !text_contains(name, "Wacom.Intuos.WacomDriverIntuosReportParser"@),
    ensures
        parser_for_name(name) is Intuos,
{
    lemma_longer_patterns(name);
}

/// A name that contains "Wacom.IntuosV1.IntuosV1ReportParser", and none of the patterns tried
/// before it, yields the Intuos V1 parser.
pub proof fn lemma_choice_intuos_v1(name: Seq<char>)
    requires
        text_contains(name, "Wacom.IntuosV1.IntuosV1ReportParser"@),
        !names_other_vendor(name),
        !names_xp_pen_veikk_or_huion(name),
        !text_contains(name, "Wacom.Bamboo.BambooReportParser"@),
        !text_contains(name, "Wacom.BambooPad.BambooPadReportParser"@),
        !text_contains(name, "Wacom.BambooV2.BambooV2AuxReportParser"@),
        !text_contains(name, "Wacom.Graphire.GraphireReportParser"@),
        !text_contains(name, "Wacom.Intuos.WacomDriverIntuosReportParser"@),
        !text_contains(name, "Wacom.Intuos.IntuosReportParser"@),
    ensures
        parser_for_name(name) is IntuosV1,
{
    lemma_longer_patterns(name);
}

/// A name that contains "Wacom.IntuosV1.WacomDriverIntuosV1ReportParser", and none of the patterns tried
/// before it, yields the Wacom driver Intuos V1 parser.
pub proof fn lemma_choice_wacom_driver_intuos_v1(name: Seq<char>)
    requires
        text_contains(name, "Wacom.IntuosV1.WacomDriverIntuosV1ReportParser"@),
        !names_other_vendor(name),
        !names_xp_pen_veikk_or_huion(name),
        !text_contains(name, "Wacom.Bamboo.BambooReportParser"@),
        !text_contains(name, "Wacom.BambooPad.BambooPadReportParser"@),
        !text_contains(name, "Wacom.BambooV2.BambooV2AuxReportParser"@),
        !text_contains(name, "Wacom.Graphire.GraphireReportParser"@),
        !text_contains(name, "Wacom.Intuos.WacomDriverIntuosReportParser"@),
        !text_contains(name, "Wacom.Intuos.IntuosReportParser"@),
        !text_contains(name, "Wacom.IntuosV1.IntuosV1ReportParser"@),
    ensures
        parser_for_name(name) is WacomDriverIntuosV1,
{
    lemma_longer_patterns(name);
}

/// A name that contains "Wacom.IntuosV2.IntuosV2ReportParser" or "Wacom.IntuosV2.WacomDriverIntuosV2ReportParser", and none of the patterns tried
/// before it, yields the Wacom driver Intuos V2 parser.
pub proof fn lemma_choice_wacom_driver_intuos_v2(name: Seq<char>)
    requires
        (text_contains(name, "Wacom.IntuosV2.IntuosV2ReportParser"@) || text_contains(name, "Wacom.IntuosV2.WacomDriverIntuosV2ReportParser"@)),
        !names_other_vendor(name),
        !names_xp_pen_veikk_or_huion(name),
        !text_contains(name, "Wacom.Bamboo.BambooReportParser"@),
        !text_contains(name, "Wacom.BambooPad.BambooPadReportParser"@),
        !text_contains(name, "Wacom.BambooV2.BambooV2AuxReportParser"@),
        !text_contains(name, "Wacom.Graphire.GraphireReportParser"@),
        !text_contains(name, "Wacom.Intuos.WacomDriverIntuosReportParser"@),
        !text_contains(name, "Wacom.Intuos.IntuosReportParser"@),
        !text_contains(name, "Wacom.IntuosV1.IntuosV1ReportParser"@),
        !text_contains(name, "Wacom.IntuosV1.WacomDriverIntuosV1ReportParser"@),
    ensures
        parser_for_name(name) is WacomDriverIntuosV2,
{
    lemma_longer_patterns(name);
}

/// A name that contains "Wacom.IntuosV3.IntuosV3ReportParser" or "Wacom.IntuosV3.WacomDriverIntuosV3ReportParser", and none of the patterns tried
/// before it, yields the Wacom driver Intuos V3 parser.
pub proof fn lemma_choice_wacom_driver_intuos_v3(name: Seq<char>)
    requires
        (text_contains(name, "Wacom.IntuosV3.IntuosV3ReportParser"@) || text_contains(name, "Wacom.IntuosV3.WacomDriverIntuosV3ReportParser"@)),
        !names_other_vendor(name),
        !names_xp_pen_veikk_or_huion(name),
        !text_contains(name, "Wacom.Bamboo.BambooReportParser"@),
        !text_contains(name, "Wacom.BambooPad.BambooPadReportParser"@),
        !text_contains(name, "Wacom.BambooV2.BambooV2AuxReportParser"@),
        !text_contains(name, "Wacom.Graphire.GraphireReportParser"@),
        !text_contains(name, "Wacom.Intuos.WacomDriverIntuosReportParser"@),
        !text_contains(name, "Wacom.Intuos.IntuosReportParser"@),
        !text_contains(name, "Wacom.IntuosV1.IntuosV1ReportParser"@),
        !text_contains(name, "Wacom.IntuosV1.WacomDriverIntuosV1ReportParser"@),
        !text_contains(name, "Wacom.IntuosV2.IntuosV2ReportParser"@),
        !text_contains(name, "Wacom.IntuosV2.WacomDriverIntuosV2ReportParser"@),
    ensures
        parser_for_name(name) is WacomDriverIntuosV3,
{
    lemma_longer_patterns(name);
}

/// A name that contains "Wacom.Intuos4.Intuos4ReportParser" or "Wacom.Intuos4.WacomDriverIntuos4ReportParser", and none of the patterns tried
/// before it, yields the Wacom driver Intuos 4 parser.
pub proof fn lemma_choice_wacom_driver_intuos4(name: Seq<char>)
    requires
        (text_contains(name, "Wacom.Intuos4.Intuos4ReportParser"@) || text_contains(name, "Wacom.Intuos4.WacomDriverIntuos4ReportParser"@)),
        !names_other_vendor(name),
        !names_xp_pen_veikk_or_huion(name),
        !text_contains(name, "Wacom.Bamboo.BambooReportParser"@),
        !text_contains(name, "Wacom.BambooPad.BambooPadReportParser"@),
        !text_contains(name, "Wacom.BambooV2.BambooV2AuxReportParser"@),
        !text_contains(name, "Wacom.Graphire.GraphireReportParser"@),
        !text_contains(name, "Wacom.Intuos.WacomDriverIntuosReportParser"@),
        !text_contains(name, "Wacom.Intuos.IntuosReportParser"@),
        !text_contains(name, "Wacom.IntuosV1.IntuosV1ReportParser"@),
        !text_contains(name, "Wacom.IntuosV1.WacomDriverIntuosV1ReportParser"@),
        !text_contains(name, "Wacom.IntuosV2.IntuosV2ReportParser"@),
        !text_contains(name, "Wacom.IntuosV2.WacomDriverIntuosV2ReportParser"@),
        !text_contains(name, "Wacom.IntuosV3.IntuosV3ReportParser"@),
        !text_contains(name, "Wacom.IntuosV3.WacomDriverIntuosV3ReportParser"@),
    ensures
        parser_for_name(name) is WacomDriverIntuos4,
{
    lemma_longer_patterns(name);
}

/// A name that contains "Wacom.IntuosPro.IntuosProReportParser" or "Wacom.IntuosPro.WacomDriverIntuosProReportParser", and none of the patterns tried
/// before it, yields the Wacom driver Intuos Pro parser.
pub proof fn lemma_choice_wacom_driver_intuos_pro(name: Seq<char>)
    requires
        (text_contains(name, "Wacom.IntuosPro.IntuosProReportParser"@) || text_contains(name, "Wacom.IntuosPro.WacomDriverIntuosProReportParser"@)),
        !names_other_vendor(name),
        !names_xp_pen_veikk_or_huion(name),
        !text_contains(name, "Wacom.Bamboo.BambooReportParser"@),
        !text_contains(name, "Wacom.BambooPad.BambooPadReportParser"@),
        !text_contains(name, "Wacom.BambooV2.BambooV2AuxReportParser"@),
        !text_contains(name, "Wacom.Graphire.GraphireReportParser"@),
        !text_contains(name, "Wacom.Intuos.WacomDriverIntuosReportParser"@),
        !text_contains(name, "Wacom.Intuos.IntuosReportParser"@),
        !text_contains(name, "Wacom.IntuosV1.IntuosV1ReportParser"@),
        !text_contains(name, "Wacom.IntuosV1.WacomDriverIntuosV1ReportParser"@),
        !text_contains(name, "Wacom.IntuosV2.IntuosV2ReportParser"@),
        !text_contains(name, "Wacom.IntuosV2.WacomDriverIntuosV2ReportParser"@),
        !text_contains(name, "Wacom.IntuosV3.IntuosV3ReportParser"@),
        !text_contains(name, "Wacom.IntuosV3.WacomDriverIntuosV3ReportParser"@),
        !text_contains(name, "Wacom.Intuos4.Intuos4ReportParser"@),
        !text_contains(name, "Wacom.Intuos4.WacomDriverIntuos4ReportParser"@),
    ensures
        parser_for_name(name) is WacomDriverIntuosPro,
{
    lemma_longer_patterns(name);
}

/// A name that contains "Wacom.Intuos3.Intuos3ReportParser" or "Wacom.Intuos3.WacomDriverIntuos3ReportParser", and none of the patterns tried
/// before it, yields the Wacom driver Intuos 3 parser.
pub proof fn lemma_choice_wacom_driver_intuos3(name: Seq<char>)
    requires
        (text_contains(name, "Wacom.Intuos3.Intuos3ReportParser"@) || text_contains(name, "Wacom.Intuos3.WacomDriverIntuos3ReportParser"@)),
        !names_other_vendor(name),
        !names_xp_pen_veikk_or_huion(name),
        !text_contains(name, "Wacom.Bamboo.BambooReportParser"@),
        !text_contains(name, "Wacom.BambooPad.BambooPadReportParser"@),
        !text_contains(name, "Wacom.BambooV2.BambooV2AuxReportParser"@),
        !text_contains(name, "Wacom.Graphire.GraphireReportParser"@),
        !text_contains(name, "Wacom.Intuos.WacomDriverIntuosReportParser"@),
        !text_contains(name, "Wacom.Intuos.IntuosReportParser"@),
        !text_contains(name, "Wacom.IntuosV1.IntuosV1ReportParser"@),
        !text_contains(name, "Wacom.IntuosV1.WacomDriverIntuosV1ReportParser"@),
        !text_contains(name, "Wacom.IntuosV2.IntuosV2ReportParser"@),
        !text_contains(name, "Wacom.IntuosV2.WacomDriverIntuosV2ReportParser"@),
        !text_contains(name, "Wacom.IntuosV3.IntuosV3ReportParser"@),
        !text_contains(name, "Wacom.IntuosV3.WacomDriverIntuosV3ReportParser"@),
        !text_contains(name, "Wacom.Intuos4.Intuos4ReportParser"@),
        !text_contains(name, "Wacom.Intuos4.WacomDriverIntuos4ReportParser"@),
        !text_contains(name, "Wacom.IntuosPro.IntuosProReportParser"@),
        !text_contains(name, "Wacom.IntuosPro.WacomDriverIntuosProReportParser"@),
    ensures
        parser_for_name(name) is WacomDriverIntuos3,
{
    lemma_longer_patterns(name);
}

/// A name that contains "Wacom.Intuos3.Intuos3ExtraAuxReportParser", and none of the patterns tried
/// before it, yields the Intuos 3 parser with extra keys.
pub proof fn lemma_choice_intuos3_extra_aux(name: Seq<char>)
    requires
        text_contains(name, "Wacom.Intuos3.Intuos3ExtraAuxReportParser"@),
        !names_other_vendor(name),
        !names_xp_pen_veikk_or_huion(name),
        !text_contains(name, "Wacom.Bamboo.BambooReportParser"@),
        !text_contains(name, "Wacom.BambooPad.BambooPadReportParser"@),
        !text_contains(name, "Wacom.BambooV2.BambooV2AuxReportParser"@),
        !text_contains(name, "Wacom.Graphire.GraphireReportParser"@),
        !text_contains(name, "Wacom.Intuos.WacomDriverIntuosReportParser"@),
        !text_contains(name, "Wacom.Intuos.IntuosReportParser"@),
        !text_contains(name, "Wacom.IntuosV1.IntuosV1ReportParser"@),
        !text_contains(name, "Wacom.IntuosV1.WacomDriverIntuosV1ReportParser"@),
        !text_contains(name, "Wacom.IntuosV2.IntuosV2ReportParser"@),
        !text_contains(name, "Wacom.IntuosV2.WacomDriverIntuosV2ReportParser"@),
        !text_contains(name, "Wacom.IntuosV3.IntuosV3ReportParser"@),
        !text_contains(name, "Wacom.IntuosV3.WacomDriverIntuosV3ReportParser"@),
        !text_contains(name, "Wacom.Intuos4.Intuos4ReportParser"@),
        !text_contains(name, "Wacom.Intuos4.WacomDriverIntuos4ReportParser"@),
        !text_contains(name, "Wacom.IntuosPro.IntuosProReportParser"@),
        !text_contains(name, "Wacom.IntuosPro.WacomDriverIntuosProReportParser"@),
        !text_contains(name, "Wacom.Intuos3.Intuos3ReportParser"@),
        !text_contains(name, "Wacom.Intuos3.WacomDriverIntuos3ReportParser"@),
    ensures
        parser_for_name(name) is Intuos3ExtraAux,
{
    lemma_longer_patterns(name);
}

/// A name that contains "Wacom.PL.PLReportParser", and none of the patterns tried
/// before it, yields the PL parser.
pub proof fn lemma_choice_pl(name: Seq<char>)
    requires
        text_contains(name, "Wacom.PL.PLReportParser"@),
        !names_other_vendor(name),
        !names_xp_pen_veikk_or_huion(name),
        !text_contains(name, "Wacom.Bamboo.BambooReportParser"@),
        !text_contains(name, "Wacom.BambooPad.BambooPadReportParser"@),
        !text_contains(name, "Wacom.BambooV2.BambooV2AuxReportParser"@),
        !text_contains(name, "Wacom.Graphire.GraphireReportParser"@),
        !text_contains(name, "Wacom.Intuos.WacomDriverIntuosReportParser"@),
        !text_contains(name, "Wacom.Intuos.IntuosReportParser"@),
        !text_contains(name, "Wacom.IntuosV1.IntuosV1ReportParser"@),
        !text_contains(name, "Wacom.IntuosV1.WacomDriverIntuosV1ReportParser"@),
        !text_contains(name, "Wacom.IntuosV2.IntuosV2ReportParser"@),
        !text_contains(name, "Wacom.IntuosV2.WacomDriverIntuosV2ReportParser"@),
        !text_contains(name, "Wacom.IntuosV3.IntuosV3ReportParser"@),
        !text_contains(name, "Wacom.IntuosV3.WacomDriverIntuosV3ReportParser"@),
        !text_contains(name, "Wacom.Intuos4.Intuos4ReportParser"@),
        !text_contains(name, "Wacom.Intuos4.WacomDriverIntuos4ReportParser"@),
        !text_contains(name, "Wacom.IntuosPro.IntuosProReportParser"@),
        !text_contains(name, "Wacom.IntuosPro.WacomDriverIntuosProReportParser"@),
        !text_contains(name, "Wacom.Intuos3.Intuos3ReportParser"@),
        !text_contains(name, "Wacom.Intuos3.WacomDriverIntuos3ReportParser"@),
        !text_contains(name, "Wacom.Intuos3.Intuos3ExtraAuxReportParser"@),
    ensures
        parser_for_name(name) is PL,
{
    lemma_longer_patterns(name);
}

/// A name that contains "Wacom.PTU.PTUReportParser", and none of the patterns tried
/// before it, yields the PTU parser.
pub proof fn lemma_choice_ptu(name: Seq<char>)
    requires
        text_contains(name, "Wacom.PTU.PTUReportParser"@),
        !names_other_vendor(name),
        !names_xp_pen_veikk_or_huion(name),
        !text_contains(name, "Wacom.Bamboo.BambooReportParser"@),
        !text_contains(name, "Wacom.BambooPad.BambooPadReportParser"@),
        !text_contains(name, "Wacom.BambooV2.BambooV2AuxReportParser"@),
        !text_contains(name, "Wacom.Graphire.GraphireReportParser"@),
        !text_contains(name, "Wacom.Intuos.WacomDriverIntuosReportParser"@),
        !text_contains(name, "Wacom.Intuos.IntuosReportParser"@),
        !text_contains(name, "Wacom.IntuosV1.IntuosV1ReportParser"@),
        !text_contains(name, "Wacom.IntuosV1.WacomDriverIntuosV1ReportParser"@),
        !text_contains(name, "Wacom.IntuosV2.IntuosV2ReportParser"@),
        !text_contains(name, "Wacom.IntuosV2.WacomDriverIntuosV2ReportParser"@),
        !text_contains(name, "Wacom.IntuosV3.IntuosV3ReportParser"@),
        !text_contains(name, "Wacom.IntuosV3.WacomDriverIntuosV3ReportParser"@),
        !text_contains(name, "Wacom.Intuos4.Intuos4ReportParser"@),
        !text_contains(name, "Wacom.Intuos4.WacomDriverIntuos4ReportParser"@),
        !text_contains(name, "Wacom.IntuosPro.IntuosProReportParser"@),
        !text_contains(name, "Wacom.IntuosPro.WacomDriverIntuosProReportParser"@),
        !text_contains(name, "Wacom.Intuos3.Intuos3ReportParser"@),
        !text_contains(name, "Wacom.Intuos3.WacomDriverIntuos3ReportParser"@),
        !text_contains(name, "Wacom.Intuos3.Intuos3ExtraAuxReportParser"@),
        !text_contains(name, "Wacom.PL.PLReportParser"@),
    ensures
        parser_for_name(name) is PTU,
{
    lemma_longer_patterns(name);
}

/// A name that contains "Wacom.Wacom64bAuxReportParser", and none of the patterns tried
/// before it, yields the 64-byte Wacom aux parser.
pub proof fn lemma_choice_wacom64b_aux(name: Seq<char>)
    requires
        text_contains(name, "Wacom.Wacom64bAuxReportParser"@),
        !names_other_vendor(name),
        !names_xp_pen_veikk_or_huion(name),
        !text_contains(name, "Wacom.Bamboo.BambooReportParser"@),
        !text_contains(name, "Wacom.BambooPad.BambooPadReportParser"@),
        !text_contains(name, "Wacom.BambooV2.BambooV2AuxReportParser"@),
        !text_contains(name, "Wacom.Graphire.GraphireReportParser"@),
        !text_contains(name, "Wacom.Intuos.WacomDriverIntuosReportParser"@),
        !text_contains(name, "Wacom.Intuos.IntuosReportParser"@),
        !text_contains(name, "Wacom.IntuosV1.IntuosV1ReportParser"@),
        !text_contains(name, "Wacom.IntuosV1.WacomDriverIntuosV1ReportParser"@),
        !text_contains(name, "Wacom.IntuosV2.IntuosV2ReportParser"@),
        !text_contains(name, "Wacom.IntuosV2.WacomDriverIntuosV2ReportParser"@),
        !text_contains(name, "Wacom.IntuosV3.IntuosV3ReportParser"@),
        !text_contains(name, "Wacom.IntuosV3.WacomDriverIntuosV3ReportParser"@),
        !text_contains(name, "Wacom.Intuos4.Intuos4ReportParser"@),
        !text_contains(name, "Wacom.Intuos4.WacomDriverIntuos4ReportParser"@),
        !text_contains(name, "Wacom.IntuosPro.IntuosProReportParser"@),
        !text_contains(name, "Wacom.IntuosPro.WacomDriverIntuosProReportParser"@),
        !text_contains(name, "Wacom.Intuos3.Intuos3ReportParser"@),
        !text_contains(name, "Wacom.Intuos3.WacomDriverIntuos3ReportParser"@),
        !text_contains(name, "Wacom.Intuos3.Intuos3ExtraAuxReportParser"@),
        !text_contains(name, "Wacom.PL.PLReportParser"@),
        !text_contains(name, "Wacom.PTU.PTUReportParser"@),
    ensures
        parser_for_name(name) is Wacom64bAux,
{
    lemma_longer_patterns(name);
}

/// A name that holds none of the patterns yields the generic layout.
pub proof fn lemma_choice_fallback(name: Seq<char>)
    requires
        !names_other_vendor(name),
        !names_xp_pen_veikk_or_huion(name),
        !text_contains(name, "Wacom.Bamboo.BambooReportParser"@),
        !text_contains(name, "Wacom.BambooPad.BambooPadReportParser"@),
        !text_contains(name, "Wacom.BambooV2.BambooV2AuxReportParser"@),
        !text_contains(name, "Wacom.Graphire.GraphireReportParser"@),
        !text_contains(name, "Wacom.Intuos.WacomDriverIntuosReportParser"@),
        !text_contains(name, "Wacom.Intuos.IntuosReportParser"@),
        !text_contains(name, "Wacom.IntuosV1.IntuosV1ReportParser"@),
        !text_contains(name, "Wacom.IntuosV1.WacomDriverIntuosV1ReportParser"@),
        !text_contains(name, "Wacom.IntuosV2.IntuosV2ReportParser"@),
        !text_contains(name, "Wacom.IntuosV2.WacomDriverIntuosV2ReportParser"@),
        !text_contains(name, "Wacom.IntuosV3.IntuosV3ReportParser"@),
        !text_contains(name, "Wacom.IntuosV3.WacomDriverIntuosV3ReportParser"@),
        !text_contains(name, "Wacom.Intuos4.Intuos4ReportParser"@),
        !text_contains(name, "Wacom.Intuos4.WacomDriverIntuos4ReportParser"@),
        !text_contains(name, "Wacom.IntuosPro.IntuosProReportParser"@),
        !text_contains(name, "Wacom.IntuosPro.WacomDriverIntuosProReportParser"@),
        !text_contains(name, "Wacom.Intuos3.Intuos3ReportParser"@),
        !text_contains(name, "Wacom.Intuos3.WacomDriverIntuos3ReportParser"@),
        !text_contains(name, "Wacom.Intuos3.Intuos3ExtraAuxReportParser"@),
        !text_contains(name, "Wacom.PL.PLReportParser"@),
        !text_contains(name, "Wacom.PTU.PTUReportParser"@),
        !text_contains(name, "Wacom.Wacom64bAuxReportParser"@),
    ensures
        parser_for_name(name) is Fallback,
{
    lemma_longer_patterns(name);
}

} // verus!
