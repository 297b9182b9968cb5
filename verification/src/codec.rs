//! The compositor's wire format: compact, line-delimited JSON.
//!
//! Requests are printed exactly as the compositor's own serializer lays
//! them out: externally tagged enum variants, struct fields in declaration
//! order, no inter-token whitespace. The parsers read that same canonical
//! shape; a frame in any other shape is not recognized and is dropped or
//! reported, which matches the protocol rule that unparseable lines are
//! never fatal.
//!
//! Every printer has a spec-level counterpart, every parser consumes a
//! prefix and returns the remainder, and the round-trip lemmas prove that
//! parsing a printed value yields that value back exactly.

use vstd::prelude::*;
use crate::jtext::{
    dec, is_digit, je_bool, je_i32, je_milli, je_milli_i32, je_opt_u64, je_str, jp_bool, jp_i32,
    jp_lit, jp_milli, jp_milli_i32, jp_opt_u64, jp_str, jp_u64, lemma_jp_bool_rt,
    lemma_jp_lit, lemma_jp_opt_u64_rt, lemma_jp_str_len, lemma_jp_str_rt, lemma_jp_u64_rt,
    lemma_jp_i32_rt, lemma_jp_milli_rt, lemma_jp_milli_i32_rt, lemma_lit_mismatch,
    lemma_jp_u64_len, lemma_jp_bool_len, lemma_jp_opt_u64_len,
    p_bool, p_i32, p_lit, p_milli, p_milli_i32, p_opt_u64, p_str, p_u64, pe_bool, pe_i32,
    pe_lit, pe_milli, pe_milli_i32, pe_opt_u64, pe_str, pe_u64, to_wire, from_wire,
};
use crate::wire::{
    NiriAction, NiriActionV, NiriEvent, NiriEventV, NiriRequest, NiriRequestV, NiriResponse,
    NiriResponseV, ResponseData, ResponseDataV, SizeChange, Window, WindowLayout, WindowV,
    Workspace, WorkspaceReferenceArg, WorkspaceReferenceArgV, WorkspaceV, view_opt_str,
};

verus! {

// ---------------------------------------------------------------------------
// Spec printers: requests and actions
// ---------------------------------------------------------------------------

pub open spec fn je_size_change(c: SizeChange) -> Seq<char> {
    match c {
        SizeChange::SetFixed(v) => "{\"SetFixed\":"@ + je_i32(v) + "}"@,
        SizeChange::SetProportion(m) => "{\"SetProportion\":"@ + je_milli(m as nat) + "}"@,
        SizeChange::AdjustFixed(v) => "{\"AdjustFixed\":"@ + je_i32(v) + "}"@,
        SizeChange::AdjustProportion(v) => "{\"AdjustProportion\":"@ + je_milli_i32(v) + "}"@,
    }
}

pub open spec fn je_ws_ref(r: WorkspaceReferenceArgV) -> Seq<char> {
    match r {
        WorkspaceReferenceArgV::Index(n) => "{\"Index\":"@ + dec(n as nat) + "}"@,
        WorkspaceReferenceArgV::Name(t) => "{\"Name\":"@ + je_str(t) + "}"@,
    }
}

/// Comma-joined quoted strings, without the brackets.
pub open spec fn je_str_items(items: Seq<Seq<char>>) -> Seq<char>
    decreases items.len(),
{
    if items.len() == 0 {
        Seq::empty()
    } else if items.len() == 1 {
        je_str(items[0])
    } else {
        je_str(items[0]) + seq![','] + je_str_items(items.drop_first())
    }
}

/// A JSON array of strings.
pub open spec fn je_str_list(items: Seq<Seq<char>>) -> Seq<char> {
    seq!['['] + je_str_items(items) + seq![']']
}

pub open spec fn je_action(a: NiriActionV) -> Seq<char> {
    match a {
        NiriActionV::Spawn { command } =>
            "{\"Spawn\":{\"command\":"@ + je_str_list(command) + "}}"@,
        NiriActionV::SetWindowWidth { id, change } =>
            "{\"SetWindowWidth\":{\"id\":"@ + je_opt_u64(id) + ",\"change\":"@
                + je_size_change(change) + "}}"@,
        NiriActionV::SetWindowHeight { id, change } =>
            "{\"SetWindowHeight\":{\"id\":"@ + je_opt_u64(id) + ",\"change\":"@
                + je_size_change(change) + "}}"@,
        NiriActionV::MoveWindowToWorkspace { window_id, reference, focus } =>
            "{\"MoveWindowToWorkspace\":{\"window_id\":"@ + je_opt_u64(window_id)
                + ",\"reference\":"@ + je_ws_ref(reference) + ",\"focus\":"@ + je_bool(focus)
                + "}}"@,
        NiriActionV::FocusWindow { id } =>
            "{\"FocusWindow\":{\"id\":"@ + dec(id as nat) + "}}"@,
        NiriActionV::MoveColumnLeft => "{\"MoveColumnLeft\":{}}"@,
        NiriActionV::MoveColumnToFirst => "{\"MoveColumnToFirst\":{}}"@,
        NiriActionV::FocusWorkspace { reference } =>
            "{\"FocusWorkspace\":{\"reference\":"@ + je_ws_ref(reference) + "}}"@,
        NiriActionV::FocusColumnRight => "{\"FocusColumnRight\":{}}"@,
        NiriActionV::FocusColumnLeft => "{\"FocusColumnLeft\":{}}"@,
        NiriActionV::CenterColumn => "{\"CenterColumn\":{}}"@,
        NiriActionV::SetColumnWidth { change } =>
            "{\"SetColumnWidth\":{\"change\":"@ + je_size_change(change) + "}}"@,
        NiriActionV::MaximizeColumn => "{\"MaximizeColumn\":{}}"@,
    }
}

pub open spec fn je_request(r: NiriRequestV) -> Seq<char> {
    match r {
        NiriRequestV::Workspaces => "\"Workspaces\""@,
        NiriRequestV::Windows => "\"Windows\""@,
        NiriRequestV::Action(a) => "{\"Action\":"@ + je_action(a) + "}"@,
        NiriRequestV::EventStream => "\"EventStream\""@,
    }
}

// ---------------------------------------------------------------------------
// Spec parsers: requests and actions
// ---------------------------------------------------------------------------

pub open spec fn jp_size_change(s: Seq<char>) -> Option<(SizeChange, Seq<char>)> {
    match jp_lit(s, "{\"SetFixed\":"@) {
        Some(s1) => match jp_i32(s1) {
            Some((v, s2)) => match jp_lit(s2, "}"@) {
                Some(s3) => Some((SizeChange::SetFixed(v), s3)),
                None => None,
            },
            None => None,
        },
        None => match jp_lit(s, "{\"SetProportion\":"@) {
            Some(s1) => match jp_milli(s1) {
                Some((m, s2)) => if m > 0xffff_ffff {
                    None
                } else {
                    match jp_lit(s2, "}"@) {
                        Some(s3) => Some((SizeChange::SetProportion(m as u32), s3)),
                        None => None,
                    }
                },
                None => None,
            },
            None => match jp_lit(s, "{\"AdjustFixed\":"@) {
                Some(s1) => match jp_i32(s1) {
                    Some((v, s2)) => match jp_lit(s2, "}"@) {
                        Some(s3) => Some((SizeChange::AdjustFixed(v), s3)),
                        None => None,
                    },
                    None => None,
                },
                None => match jp_lit(s, "{\"AdjustProportion\":"@) {
                    Some(s1) => match jp_milli_i32(s1) {
                        Some((v, s2)) => match jp_lit(s2, "}"@) {
                            Some(s3) => Some((SizeChange::AdjustProportion(v), s3)),
                            None => None,
                        },
                        None => None,
                    },
                    None => None,
                },
            },
        },
    }
}

pub open spec fn jp_ws_ref(s: Seq<char>) -> Option<(WorkspaceReferenceArgV, Seq<char>)> {
    match jp_lit(s, "{\"Index\":"@) {
        Some(s1) => match jp_u64(s1) {
            Some((n, s2)) => match jp_lit(s2, "}"@) {
                Some(s3) => Some((WorkspaceReferenceArgV::Index(n), s3)),
                None => None,
            },
            None => None,
        },
        None => match jp_lit(s, "{\"Name\":"@) {
            Some(s1) => match jp_str(s1) {
                Some((t, s2)) => match jp_lit(s2, "}"@) {
                    Some(s3) => Some((WorkspaceReferenceArgV::Name(t), s3)),
                    None => None,
                },
                None => None,
            },
            None => None,
        },
    }
}

/// One or more comma-separated quoted strings.
pub open spec fn jp_str_items(s: Seq<char>) -> Option<(Seq<Seq<char>>, Seq<char>)>
    decreases s.len()
        via jp_str_items_dec
{
    match jp_str(s) {
        None => None,
        Some((t, r)) => {
            if r.len() > 0 && r[0] == ',' {
                match jp_str_items(r.drop_first()) {
                    None => None,
                    Some((items, r2)) => Some((seq![t] + items, r2)),
                }
            } else {
                Some((seq![t], r))
            }
        },
    }
}

#[via_fn]
proof fn jp_str_items_dec(s: Seq<char>) {
    if jp_str(s) is Some {
        lemma_jp_str_len(s);
    }
}

/// A JSON array of strings, possibly empty.
pub open spec fn jp_str_list(s: Seq<char>) -> Option<(Seq<Seq<char>>, Seq<char>)> {
    match jp_lit(s, "["@) {
        None => None,
        Some(s1) => match jp_lit(s1, "]"@) {
            Some(s2) => Some((Seq::empty(), s2)),
            None => match jp_str_items(s1) {
                None => None,
                Some((items, r)) => match jp_lit(r, "]"@) {
                    Some(r2) => Some((items, r2)),
                    None => None,
                },
            },
        },
    }
}

pub open spec fn jp_action(s: Seq<char>) -> Option<(NiriActionV, Seq<char>)> {
    match jp_lit(s, "{\"Spawn\":{\"command\":"@) {
        Some(s1) => match jp_str_list(s1) {
            Some((items, s2)) => match jp_lit(s2, "}}"@) {
                Some(s3) => Some((NiriActionV::Spawn { command: items }, s3)),
                None => None,
            },
            None => None,
        },
        None => match jp_lit(s, "{\"SetWindowWidth\":{\"id\":"@) {
            Some(s1) => match jp_opt_u64(s1) {
                Some((id, s2)) => match jp_lit(s2, ",\"change\":"@) {
                    Some(s3) => match jp_size_change(s3) {
                        Some((c, s4)) => match jp_lit(s4, "}}"@) {
                            Some(s5) => Some((NiriActionV::SetWindowWidth { id: id, change: c }, s5)),
                            None => None,
                        },
                        None => None,
                    },
                    None => None,
                },
                None => None,
            },
            None => match jp_lit(s, "{\"SetWindowHeight\":{\"id\":"@) {
                Some(s1) => match jp_opt_u64(s1) {
                    Some((id, s2)) => match jp_lit(s2, ",\"change\":"@) {
                        Some(s3) => match jp_size_change(s3) {
                            Some((c, s4)) => match jp_lit(s4, "}}"@) {
                                Some(s5) => Some(
                                    (NiriActionV::SetWindowHeight { id: id, change: c }, s5),
                                ),
                                None => None,
                            },
                            None => None,
                        },
                        None => None,
                    },
                    None => None,
                },
                None => match jp_lit(s, "{\"MoveWindowToWorkspace\":{\"window_id\":"@) {
                    Some(s1) => match jp_opt_u64(s1) {
                        Some((wid, s2)) => match jp_lit(s2, ",\"reference\":"@) {
                            Some(s3) => match jp_ws_ref(s3) {
                                Some((wr, s4)) => match jp_lit(s4, ",\"focus\":"@) {
                                    Some(s5) => match jp_bool(s5) {
                                        Some((f, s6)) => match jp_lit(s6, "}}"@) {
                                            Some(s7) => Some((
                                                NiriActionV::MoveWindowToWorkspace {
                                                    window_id: wid,
                                                    reference: wr,
                                                    focus: f,
                                                },
                                                s7,
                                            )),
                                            None => None,
                                        },
                                        None => None,
                                    },
                                    None => None,
                                },
                                None => None,
                            },
                            None => None,
                        },
                        None => None,
                    },
                    None => match jp_lit(s, "{\"FocusWindow\":{\"id\":"@) {
                        Some(s1) => match jp_u64(s1) {
                            Some((id, s2)) => match jp_lit(s2, "}}"@) {
                                Some(s3) => Some((NiriActionV::FocusWindow { id: id }, s3)),
                                None => None,
                            },
                            None => None,
                        },
                        None => jp_action_tail(s),
                    },
                },
            },
        },
    }
}

/// Continuation of `jp_action` for the remaining variants.
pub open spec fn jp_action_tail(s: Seq<char>) -> Option<(NiriActionV, Seq<char>)> {
    match jp_lit(s, "{\"MoveColumnLeft\":{}}"@) {
        Some(s1) => Some((NiriActionV::MoveColumnLeft, s1)),
        None => match jp_lit(s, "{\"MoveColumnToFirst\":{}}"@) {
            Some(s1) => Some((NiriActionV::MoveColumnToFirst, s1)),
            None => match jp_lit(s, "{\"FocusWorkspace\":{\"reference\":"@) {
                Some(s1) => match jp_ws_ref(s1) {
                    Some((wr, s2)) => match jp_lit(s2, "}}"@) {
                        Some(s3) => Some((NiriActionV::FocusWorkspace { reference: wr }, s3)),
                        None => None,
                    },
                    None => None,
                },
                None => match jp_lit(s, "{\"FocusColumnRight\":{}}"@) {
                    Some(s1) => Some((NiriActionV::FocusColumnRight, s1)),
                    None => match jp_lit(s, "{\"FocusColumnLeft\":{}}"@) {
                        Some(s1) => Some((NiriActionV::FocusColumnLeft, s1)),
                        None => match jp_lit(s, "{\"CenterColumn\":{}}"@) {
                            Some(s1) => Some((NiriActionV::CenterColumn, s1)),
                            None => match jp_lit(s, "{\"SetColumnWidth\":{\"change\":"@) {
                                Some(s1) => match jp_size_change(s1) {
                                    Some((c, s2)) => match jp_lit(s2, "}}"@) {
                                        Some(s3) => Some(
                                            (NiriActionV::SetColumnWidth { change: c }, s3),
                                        ),
                                        None => None,
                                    },
                                    None => None,
                                },
                                None => match jp_lit(s, "{\"MaximizeColumn\":{}}"@) {
                                    Some(s1) => Some((NiriActionV::MaximizeColumn, s1)),
                                    None => None,
                                },
                            },
                        },
                    },
                },
            },
        },
    }
}

// ---------------------------------------------------------------------------
// Round trips: parsing a printed value yields the value back, whatever
// follows it on the line.
// ---------------------------------------------------------------------------

pub proof fn lemma_size_change_rt(c: SizeChange, rest: Seq<char>)
    ensures
        jp_size_change(je_size_change(c) + rest) == Some((c, rest)),
{
    reveal_strlit("{\"SetFixed\":");
    reveal_strlit("{\"SetProportion\":");
    reveal_strlit("{\"AdjustFixed\":");
    reveal_strlit("{\"AdjustProportion\":");
    reveal_strlit("}");
    let s = je_size_change(c) + rest;
    match c {
        SizeChange::SetFixed(v) => {
            let t2 = "}"@ + rest;
            let t1 = je_i32(v) + t2;
            assert(s =~= "{\"SetFixed\":"@ + t1);
            lemma_jp_lit("{\"SetFixed\":"@, t1);
            assert(t2[0] == '}');
            lemma_jp_i32_rt(v, t2);
            lemma_jp_lit("}"@, rest);
        },
        SizeChange::SetProportion(m) => {
            let t2 = "}"@ + rest;
            let t1 = je_milli(m as nat) + t2;
            assert(s =~= "{\"SetProportion\":"@ + t1);
            assert(s[5] == 'P');
            lemma_lit_mismatch(s, "{\"SetFixed\":"@, 5);
            lemma_jp_lit("{\"SetProportion\":"@, t1);
            assert(t2[0] == '}');
            lemma_jp_milli_rt(m, t2);
            lemma_jp_lit("}"@, rest);
        },
        SizeChange::AdjustFixed(v) => {
            let t2 = "}"@ + rest;
            let t1 = je_i32(v) + t2;
            assert(s =~= "{\"AdjustFixed\":"@ + t1);
            assert(s[2] == 'A');
            lemma_lit_mismatch(s, "{\"SetFixed\":"@, 2);
            lemma_lit_mismatch(s, "{\"SetProportion\":"@, 2);
            lemma_jp_lit("{\"AdjustFixed\":"@, t1);
            assert(t2[0] == '}');
            lemma_jp_i32_rt(v, t2);
            lemma_jp_lit("}"@, rest);
        },
        SizeChange::AdjustProportion(v) => {
            let t2 = "}"@ + rest;
            let t1 = je_milli_i32(v) + t2;
            assert(s =~= "{\"AdjustProportion\":"@ + t1);
            assert(s[2] == 'A');
            assert(s[8] == 'P');
            lemma_lit_mismatch(s, "{\"SetFixed\":"@, 2);
            lemma_lit_mismatch(s, "{\"SetProportion\":"@, 2);
            lemma_lit_mismatch(s, "{\"AdjustFixed\":"@, 8);
            lemma_jp_lit("{\"AdjustProportion\":"@, t1);
            assert(t2[0] == '}');
            lemma_jp_milli_i32_rt(v, t2);
            lemma_jp_lit("}"@, rest);
        },
    }
}

pub proof fn lemma_ws_ref_rt(r: WorkspaceReferenceArgV, rest: Seq<char>)
    ensures
        jp_ws_ref(je_ws_ref(r) + rest) == Some((r, rest)),
{
    reveal_strlit("{\"Index\":");
    reveal_strlit("{\"Name\":");
    reveal_strlit("}");
    let s = je_ws_ref(r) + rest;
    match r {
        WorkspaceReferenceArgV::Index(n) => {
            let t2 = "}"@ + rest;
            let t1 = dec(n as nat) + t2;
            assert(s =~= "{\"Index\":"@ + t1);
            lemma_jp_lit("{\"Index\":"@, t1);
            assert(t2[0] == '}');
            lemma_jp_u64_rt(n, t2);
            lemma_jp_lit("}"@, rest);
        },
        WorkspaceReferenceArgV::Name(t) => {
            let t2 = "}"@ + rest;
            let t1 = je_str(t) + t2;
            assert(s =~= "{\"Name\":"@ + t1);
            assert(s[2] == 'N');
            lemma_lit_mismatch(s, "{\"Index\":"@, 2);
            lemma_jp_lit("{\"Name\":"@, t1);
            lemma_jp_str_rt(t, t2);
            lemma_jp_lit("}"@, rest);
        },
    }
}

pub proof fn lemma_str_items_rt(items: Seq<Seq<char>>, rest: Seq<char>)
    requires
        items.len() >= 1,
        rest.len() > 0,
        rest[0] == ']',
    ensures
        jp_str_items(je_str_items(items) + rest) == Some((items, rest)),
    decreases items.len(),
{
    if items.len() == 1 {
        assert(je_str_items(items) + rest =~= je_str(items[0]) + rest);
        lemma_jp_str_rt(items[0], rest);
        assert(seq![items[0]] =~= items);
    } else {
        let tail = je_str_items(items.drop_first()) + rest;
        let t1 = seq![','] + tail;
        assert(je_str_items(items) + rest =~= je_str(items[0]) + t1);
        lemma_jp_str_rt(items[0], t1);
        assert(t1[0] == ',');
        lemma_str_items_rt(items.drop_first(), rest);
        assert(t1.drop_first() =~= tail);
        assert(seq![items[0]] + items.drop_first() =~= items);
    }
}

pub proof fn lemma_str_list_rt(items: Seq<Seq<char>>, rest: Seq<char>)
    ensures
        jp_str_list(je_str_list(items) + rest) == Some((items, rest)),
{
    reveal_strlit("[");
    reveal_strlit("]");
    let s = je_str_list(items) + rest;
    if items.len() == 0 {
        let t1 = "]"@ + rest;
        assert(s =~= "["@ + t1);
        lemma_jp_lit("["@, t1);
        lemma_jp_lit("]"@, rest);
        assert(je_str_list(items) + rest =~= "["@ + ("]"@ + rest));
    } else {
        let t2 = "]"@ + rest;
        let t1 = je_str_items(items) + t2;
        assert(s =~= "["@ + t1);
        lemma_jp_lit("["@, t1);
        assert(je_str_items(items)[0] == '"') by {
            if items.len() == 1 {
                assert(je_str_items(items) == je_str(items[0]));
            } else {
                assert(je_str_items(items) == je_str(items[0]) + seq![',']
                    + je_str_items(items.drop_first()));
            }
            assert(je_str(items[0])[0] == '"');
        }
        assert(t1[0] == '"');
        lemma_lit_mismatch(t1, "]"@, 0);
        assert(t2[0] == ']');
        lemma_str_items_rt(items, t2);
        lemma_jp_lit("]"@, rest);
    }
}

/// Every action, printed to the wire and parsed back, yields a value with
/// identical fields, whatever text follows it on the line.
#[verifier::rlimit(100)]
#[verifier::spinoff_prover]
pub proof fn lemma_action_rt(a: NiriActionV, rest: Seq<char>)
    ensures
        jp_action(je_action(a) + rest) == Some((a, rest)),
{
    reveal_strlit("{\"Spawn\":{\"command\":");
    reveal_strlit("{\"SetWindowWidth\":{\"id\":");
    reveal_strlit("{\"SetWindowHeight\":{\"id\":");
    reveal_strlit("{\"MoveWindowToWorkspace\":{\"window_id\":");
    reveal_strlit("{\"FocusWindow\":{\"id\":");
    reveal_strlit("{\"MoveColumnLeft\":{}}");
    reveal_strlit("{\"MoveColumnToFirst\":{}}");
    reveal_strlit("{\"FocusWorkspace\":{\"reference\":");
    reveal_strlit("{\"FocusColumnRight\":{}}");
    reveal_strlit("{\"FocusColumnLeft\":{}}");
    reveal_strlit("{\"CenterColumn\":{}}");
    reveal_strlit("{\"SetColumnWidth\":{\"change\":");
    reveal_strlit("{\"MaximizeColumn\":{}}");
    reveal_strlit(",\"change\":");
    reveal_strlit(",\"reference\":");
    reveal_strlit(",\"focus\":");
    reveal_strlit("}}");
    let s = je_action(a) + rest;
    match a {
        NiriActionV::Spawn { command } => {
            let t2 = "}}"@ + rest;
            let t1 = je_str_list(command) + t2;
            assert(s =~= "{\"Spawn\":{\"command\":"@ + t1);
            lemma_jp_lit("{\"Spawn\":{\"command\":"@, t1);
            lemma_str_list_rt(command, t2);
            lemma_jp_lit("}}"@, rest);
        },
        NiriActionV::SetWindowWidth { id, change } => {
            let t4 = "}}"@ + rest;
            let t3 = je_size_change(change) + t4;
            let t2 = ",\"change\":"@ + t3;
            let t1 = je_opt_u64(id) + t2;
            assert(s =~= "{\"SetWindowWidth\":{\"id\":"@ + t1);
            assert(s[3] == 'e');
            lemma_lit_mismatch(s, "{\"Spawn\":{\"command\":"@, 3);
            lemma_jp_lit("{\"SetWindowWidth\":{\"id\":"@, t1);
            assert(t2[0] == ',');
            lemma_jp_opt_u64_rt(id, t2);
            lemma_jp_lit(",\"change\":"@, t3);
            lemma_size_change_rt(change, t4);
            lemma_jp_lit("}}"@, rest);
        },
        NiriActionV::SetWindowHeight { id, change } => {
            let t4 = "}}"@ + rest;
            let t3 = je_size_change(change) + t4;
            let t2 = ",\"change\":"@ + t3;
            let t1 = je_opt_u64(id) + t2;
            assert(s =~= "{\"SetWindowHeight\":{\"id\":"@ + t1);
            assert(s[3] == 'e');
            assert(s[11] == 'H');
            lemma_lit_mismatch(s, "{\"Spawn\":{\"command\":"@, 3);
            lemma_lit_mismatch(s, "{\"SetWindowWidth\":{\"id\":"@, 11);
            lemma_jp_lit("{\"SetWindowHeight\":{\"id\":"@, t1);
            assert(t2[0] == ',');
            lemma_jp_opt_u64_rt(id, t2);
            lemma_jp_lit(",\"change\":"@, t3);
            lemma_size_change_rt(change, t4);
            lemma_jp_lit("}}"@, rest);
        },
        NiriActionV::MoveWindowToWorkspace { window_id, reference, focus } => {
            let t6 = "}}"@ + rest;
            let t5 = je_bool(focus) + t6;
            let t4 = ",\"focus\":"@ + t5;
            let t3 = je_ws_ref(reference) + t4;
            let t2 = ",\"reference\":"@ + t3;
            let t1 = je_opt_u64(window_id) + t2;
            assert(s =~= "{\"MoveWindowToWorkspace\":{\"window_id\":"@ + t1);
            assert(s[2] == 'M');
            lemma_lit_mismatch(s, "{\"Spawn\":{\"command\":"@, 2);
            lemma_lit_mismatch(s, "{\"SetWindowWidth\":{\"id\":"@, 2);
            lemma_lit_mismatch(s, "{\"SetWindowHeight\":{\"id\":"@, 2);
            lemma_jp_lit("{\"MoveWindowToWorkspace\":{\"window_id\":"@, t1);
            assert(t2[0] == ',');
            lemma_jp_opt_u64_rt(window_id, t2);
            lemma_jp_lit(",\"reference\":"@, t3);
            lemma_ws_ref_rt(reference, t4);
            lemma_jp_lit(",\"focus\":"@, t5);
            lemma_jp_bool_rt(focus, t6);
            lemma_jp_lit("}}"@, rest);
        },
        NiriActionV::FocusWindow { id } => {
            let t2 = "}}"@ + rest;
            let t1 = dec(id as nat) + t2;
            assert(s =~= "{\"FocusWindow\":{\"id\":"@ + t1);
            assert(s[2] == 'F');
            lemma_lit_mismatch(s, "{\"Spawn\":{\"command\":"@, 2);
            lemma_lit_mismatch(s, "{\"SetWindowWidth\":{\"id\":"@, 2);
            lemma_lit_mismatch(s, "{\"SetWindowHeight\":{\"id\":"@, 2);
            lemma_lit_mismatch(s, "{\"MoveWindowToWorkspace\":{\"window_id\":"@, 2);
            lemma_jp_lit("{\"FocusWindow\":{\"id\":"@, t1);
            assert(t2[0] == '}');
            lemma_jp_u64_rt(id, t2);
            lemma_jp_lit("}}"@, rest);
        },
        NiriActionV::MoveColumnLeft => {
            assert(s =~= "{\"MoveColumnLeft\":{}}"@ + rest);
            assert(s[2] == 'M');
            assert(s[6] == 'C');
            lemma_lit_mismatch(s, "{\"Spawn\":{\"command\":"@, 2);
            lemma_lit_mismatch(s, "{\"SetWindowWidth\":{\"id\":"@, 2);
            lemma_lit_mismatch(s, "{\"SetWindowHeight\":{\"id\":"@, 2);
            lemma_lit_mismatch(s, "{\"MoveWindowToWorkspace\":{\"window_id\":"@, 6);
            lemma_lit_mismatch(s, "{\"FocusWindow\":{\"id\":"@, 2);
            lemma_jp_lit("{\"MoveColumnLeft\":{}}"@, rest);
        },
        NiriActionV::MoveColumnToFirst => {
            assert(s =~= "{\"MoveColumnToFirst\":{}}"@ + rest);
            assert(s[2] == 'M');
            assert(s[6] == 'C');
            assert(s[12] == 'T');
            lemma_lit_mismatch(s, "{\"Spawn\":{\"command\":"@, 2);
            lemma_lit_mismatch(s, "{\"SetWindowWidth\":{\"id\":"@, 2);
            lemma_lit_mismatch(s, "{\"SetWindowHeight\":{\"id\":"@, 2);
            lemma_lit_mismatch(s, "{\"MoveWindowToWorkspace\":{\"window_id\":"@, 6);
            lemma_lit_mismatch(s, "{\"FocusWindow\":{\"id\":"@, 2);
            lemma_lit_mismatch(s, "{\"MoveColumnLeft\":{}}"@, 12);
            lemma_jp_lit("{\"MoveColumnToFirst\":{}}"@, rest);
        },
        NiriActionV::FocusWorkspace { reference } => {
            let t2 = "}}"@ + rest;
            let t1 = je_ws_ref(reference) + t2;
            assert(s =~= "{\"FocusWorkspace\":{\"reference\":"@ + t1);
            assert(s[2] == 'F');
            assert(s[8] == 'o');
            lemma_lit_mismatch(s, "{\"Spawn\":{\"command\":"@, 2);
            lemma_lit_mismatch(s, "{\"SetWindowWidth\":{\"id\":"@, 2);
            lemma_lit_mismatch(s, "{\"SetWindowHeight\":{\"id\":"@, 2);
            lemma_lit_mismatch(s, "{\"MoveWindowToWorkspace\":{\"window_id\":"@, 2);
            lemma_lit_mismatch(s, "{\"FocusWindow\":{\"id\":"@, 8);
            lemma_lit_mismatch(s, "{\"MoveColumnLeft\":{}}"@, 2);
            lemma_lit_mismatch(s, "{\"MoveColumnToFirst\":{}}"@, 2);
            lemma_jp_lit("{\"FocusWorkspace\":{\"reference\":"@, t1);
            lemma_ws_ref_rt(reference, t2);
            lemma_jp_lit("}}"@, rest);
        },
        NiriActionV::FocusColumnRight => {
            assert(s =~= "{\"FocusColumnRight\":{}}"@ + rest);
            assert(s[2] == 'F');
            assert(s[7] == 'C');
            lemma_lit_mismatch(s, "{\"Spawn\":{\"command\":"@, 2);
            lemma_lit_mismatch(s, "{\"SetWindowWidth\":{\"id\":"@, 2);
            lemma_lit_mismatch(s, "{\"SetWindowHeight\":{\"id\":"@, 2);
            lemma_lit_mismatch(s, "{\"MoveWindowToWorkspace\":{\"window_id\":"@, 2);
            lemma_lit_mismatch(s, "{\"FocusWindow\":{\"id\":"@, 7);
            lemma_lit_mismatch(s, "{\"MoveColumnLeft\":{}}"@, 2);
            lemma_lit_mismatch(s, "{\"MoveColumnToFirst\":{}}"@, 2);
            lemma_lit_mismatch(s, "{\"FocusWorkspace\":{\"reference\":"@, 7);
            lemma_jp_lit("{\"FocusColumnRight\":{}}"@, rest);
        },
        NiriActionV::FocusColumnLeft => {
            assert(s =~= "{\"FocusColumnLeft\":{}}"@ + rest);
            assert(s[2] == 'F');
            assert(s[7] == 'C');
            assert(s[13] == 'L');
            lemma_lit_mismatch(s, "{\"Spawn\":{\"command\":"@, 2);
            lemma_lit_mismatch(s, "{\"SetWindowWidth\":{\"id\":"@, 2);
            lemma_lit_mismatch(s, "{\"SetWindowHeight\":{\"id\":"@, 2);
            lemma_lit_mismatch(s, "{\"MoveWindowToWorkspace\":{\"window_id\":"@, 2);
            lemma_lit_mismatch(s, "{\"FocusWindow\":{\"id\":"@, 7);
            lemma_lit_mismatch(s, "{\"MoveColumnLeft\":{}}"@, 2);
            lemma_lit_mismatch(s, "{\"MoveColumnToFirst\":{}}"@, 2);
            lemma_lit_mismatch(s, "{\"FocusWorkspace\":{\"reference\":"@, 7);
            lemma_lit_mismatch(s, "{\"FocusColumnRight\":{}}"@, 13);
            lemma_jp_lit("{\"FocusColumnLeft\":{}}"@, rest);
        },
        NiriActionV::CenterColumn => {
            assert(s =~= "{\"CenterColumn\":{}}"@ + rest);
            assert(s[2] == 'C');
            lemma_lit_mismatch(s, "{\"Spawn\":{\"command\":"@, 2);
            lemma_lit_mismatch(s, "{\"SetWindowWidth\":{\"id\":"@, 2);
            lemma_lit_mismatch(s, "{\"SetWindowHeight\":{\"id\":"@, 2);
            lemma_lit_mismatch(s, "{\"MoveWindowToWorkspace\":{\"window_id\":"@, 2);
            lemma_lit_mismatch(s, "{\"FocusWindow\":{\"id\":"@, 2);
            lemma_lit_mismatch(s, "{\"MoveColumnLeft\":{}}"@, 2);
            lemma_lit_mismatch(s, "{\"MoveColumnToFirst\":{}}"@, 2);
            lemma_lit_mismatch(s, "{\"FocusWorkspace\":{\"reference\":"@, 2);
            lemma_lit_mismatch(s, "{\"FocusColumnRight\":{}}"@, 2);
            lemma_lit_mismatch(s, "{\"FocusColumnLeft\":{}}"@, 2);
            lemma_jp_lit("{\"CenterColumn\":{}}"@, rest);
        },
        NiriActionV::SetColumnWidth { change } => {
            let t2 = "}}"@ + rest;
            let t1 = je_size_change(change) + t2;
            assert(s =~= "{\"SetColumnWidth\":{\"change\":"@ + t1);
            assert(s[2] == 'S');
            assert(s[3] == 'e');
            assert(s[5] == 'C');
            lemma_lit_mismatch(s, "{\"Spawn\":{\"command\":"@, 3);
            lemma_lit_mismatch(s, "{\"SetWindowWidth\":{\"id\":"@, 5);
            lemma_lit_mismatch(s, "{\"SetWindowHeight\":{\"id\":"@, 5);
            lemma_lit_mismatch(s, "{\"MoveWindowToWorkspace\":{\"window_id\":"@, 2);
            lemma_lit_mismatch(s, "{\"FocusWindow\":{\"id\":"@, 2);
            lemma_lit_mismatch(s, "{\"MoveColumnLeft\":{}}"@, 2);
            lemma_lit_mismatch(s, "{\"MoveColumnToFirst\":{}}"@, 2);
            lemma_lit_mismatch(s, "{\"FocusWorkspace\":{\"reference\":"@, 2);
            lemma_lit_mismatch(s, "{\"FocusColumnRight\":{}}"@, 2);
            lemma_lit_mismatch(s, "{\"FocusColumnLeft\":{}}"@, 2);
            lemma_lit_mismatch(s, "{\"CenterColumn\":{}}"@, 2);
            lemma_jp_lit("{\"SetColumnWidth\":{\"change\":"@, t1);
            lemma_size_change_rt(change, t2);
            lemma_jp_lit("}}"@, rest);
        },
        NiriActionV::MaximizeColumn => {
            assert(s =~= "{\"MaximizeColumn\":{}}"@ + rest);
            assert(s[2] == 'M');
            assert(s[3] == 'a');
            lemma_lit_mismatch(s, "{\"Spawn\":{\"command\":"@, 2);
            lemma_lit_mismatch(s, "{\"SetWindowWidth\":{\"id\":"@, 2);
            lemma_lit_mismatch(s, "{\"SetWindowHeight\":{\"id\":"@, 2);
            lemma_lit_mismatch(s, "{\"MoveWindowToWorkspace\":{\"window_id\":"@, 3);
            lemma_lit_mismatch(s, "{\"FocusWindow\":{\"id\":"@, 2);
            lemma_lit_mismatch(s, "{\"MoveColumnLeft\":{}}"@, 3);
            lemma_lit_mismatch(s, "{\"MoveColumnToFirst\":{}}"@, 3);
            lemma_lit_mismatch(s, "{\"FocusWorkspace\":{\"reference\":"@, 2);
            lemma_lit_mismatch(s, "{\"FocusColumnRight\":{}}"@, 2);
            lemma_lit_mismatch(s, "{\"FocusColumnLeft\":{}}"@, 2);
            lemma_lit_mismatch(s, "{\"CenterColumn\":{}}"@, 2);
            lemma_lit_mismatch(s, "{\"SetColumnWidth\":{\"change\":"@, 2);
            lemma_jp_lit("{\"MaximizeColumn\":{}}"@, rest);
        },
    }
}

/// Every request, printed to the wire and parsed back, yields a value
/// with identical fields.
pub proof fn lemma_request_rt(r: NiriRequestV, rest: Seq<char>)
    ensures
        jp_request(je_request(r) + rest) == Some((r, rest)),
{
    reveal_strlit("\"Workspaces\"");
    reveal_strlit("\"Windows\"");
    reveal_strlit("\"EventStream\"");
    reveal_strlit("{\"Action\":");
    reveal_strlit("}");
    let s = je_request(r) + rest;
    match r {
        NiriRequestV::Workspaces => {
            lemma_jp_lit("\"Workspaces\""@, rest);
        },
        NiriRequestV::Windows => {
            assert(s =~= "\"Windows\""@ + rest);
            assert(s[2] == 'i');
            lemma_lit_mismatch(s, "\"Workspaces\""@, 2);
            lemma_jp_lit("\"Windows\""@, rest);
        },
        NiriRequestV::EventStream => {
            assert(s =~= "\"EventStream\""@ + rest);
            assert(s[1] == 'E');
            lemma_lit_mismatch(s, "\"Workspaces\""@, 1);
            lemma_lit_mismatch(s, "\"Windows\""@, 1);
            lemma_jp_lit("\"EventStream\""@, rest);
        },
        NiriRequestV::Action(a) => {
            let t2 = "}"@ + rest;
            let t1 = je_action(a) + t2;
            assert(s =~= "{\"Action\":"@ + t1);
            assert(s[0] == '{');
            lemma_lit_mismatch(s, "\"Workspaces\""@, 0);
            lemma_lit_mismatch(s, "\"Windows\""@, 0);
            lemma_lit_mismatch(s, "\"EventStream\""@, 0);
            lemma_jp_lit("{\"Action\":"@, t1);
            lemma_action_rt(a, t2);
            lemma_jp_lit("}"@, rest);
        },
    }
}

pub open spec fn jp_request(s: Seq<char>) -> Option<(NiriRequestV, Seq<char>)> {
    match jp_lit(s, "\"Workspaces\""@) {
        Some(s1) => Some((NiriRequestV::Workspaces, s1)),
        None => match jp_lit(s, "\"Windows\""@) {
            Some(s1) => Some((NiriRequestV::Windows, s1)),
            None => match jp_lit(s, "\"EventStream\""@) {
                Some(s1) => Some((NiriRequestV::EventStream, s1)),
                None => match jp_lit(s, "{\"Action\":"@) {
                    Some(s1) => match jp_action(s1) {
                        Some((a, s2)) => match jp_lit(s2, "}"@) {
                            Some(s3) => Some((NiriRequestV::Action(a), s3)),
                            None => None,
                        },
                        None => None,
                    },
                    None => None,
                },
            },
        },
    }
}

/// A whole printed request line parses back to exactly the request it
/// was printed from, with nothing left over.
pub proof fn lemma_wire_round_trip(r: NiriRequestV)
    ensures
        jp_request(je_request(r)) == Some((r, Seq::<char>::empty())),
{
    lemma_request_rt(r, Seq::empty());
    assert(je_request(r) + Seq::<char>::empty() =~= je_request(r));
}

// ---------------------------------------------------------------------------
// Spec parsers: replies and events
// ---------------------------------------------------------------------------

/// An optional string: `null` or a quoted string.
pub open spec fn jp_opt_str(s: Seq<char>) -> Option<(Option<Seq<char>>, Seq<char>)> {
    match jp_lit(s, "null"@) {
        Some(r) => Some((None, r)),
        None => match jp_str(s) {
            Some((t, r)) => Some((Some(t), r)),
            None => None,
        },
    }
}

pub proof fn lemma_jp_opt_str_len(s: Seq<char>)
    requires
        jp_opt_str(s) is Some,
    ensures
        jp_opt_str(s)->Some_0.1.len() < s.len(),
{
    reveal_strlit("null");
    if jp_lit(s, "null"@) is None {
        lemma_jp_str_len(s);
    }
}

/// A workspace record, fields in the compositor's declaration order.
pub open spec fn jp_workspace(s: Seq<char>) -> Option<(WorkspaceV, Seq<char>)> {
    match jp_lit(s, "{\"id\":"@) {
        None => None,
        Some(s1) => match jp_u64(s1) {
            None => None,
            Some((id, s2)) => match jp_lit(s2, ",\"idx\":"@) {
                None => None,
                Some(s3) => match jp_u64(s3) {
                    None => None,
                    Some((idx, s4)) => if idx > 255 {
                        None
                    } else {
                        match jp_lit(s4, ",\"name\":"@) {
                            None => None,
                            Some(s5) => match jp_opt_str(s5) {
                                None => None,
                                Some((name, s6)) => match jp_lit(s6, ",\"output\":"@) {
                                    None => None,
                                    Some(s7) => match jp_opt_str(s7) {
                                        None => None,
                                        Some((output, s8)) => jp_workspace_flags(
                                            s8, id, idx as u8, name, output,
                                        ),
                                    },
                                },
                            },
                        }
                    },
                },
            },
        },
    }
}

/// Continuation of `jp_workspace`: the boolean flags and active window.
pub open spec fn jp_workspace_flags(
    s: Seq<char>,
    id: u64,
    idx: u8,
    name: Option<Seq<char>>,
    output: Option<Seq<char>>,
) -> Option<(WorkspaceV, Seq<char>)> {
    match jp_lit(s, ",\"is_urgent\":"@) {
        None => None,
        Some(s1) => match jp_bool(s1) {
            None => None,
            Some((is_urgent, s2)) => match jp_lit(s2, ",\"is_active\":"@) {
                None => None,
                Some(s3) => match jp_bool(s3) {
                    None => None,
                    Some((is_active, s4)) => match jp_lit(s4, ",\"is_focused\":"@) {
                        None => None,
                        Some(s5) => match jp_bool(s5) {
                            None => None,
                            Some((is_focused, s6)) => match jp_lit(
                                s6, ",\"active_window_id\":"@,
                            ) {
                                None => None,
                                Some(s7) => match jp_opt_u64(s7) {
                                    None => None,
                                    Some((awid, s8)) => match jp_lit(s8, "}"@) {
                                        None => None,
                                        Some(s9) => Some((
                                            WorkspaceV {
                                                id: id,
                                                idx: idx,
                                                name: name,
                                                output: output,
                                                is_urgent: is_urgent,
                                                is_active: is_active,
                                                is_focused: is_focused,
                                                active_window_id: awid,
                                            },
                                            s9,
                                        )),
                                    },
                                },
                            },
                        },
                    },
                },
            },
        },
    }
}

/// The value of a window's `layout` field: `null` or a layout record.
pub open spec fn jp_layout_value(s: Seq<char>) -> Option<(Option<WindowLayout>, Seq<char>)> {
    match jp_lit(s, "null"@) {
        Some(r) => Some((None, r)),
        None => match jp_lit(s, "{\"pos_in_scrolling_layout\":"@) {
            None => None,
            Some(s1) => match jp_lit(s1, "null"@) {
                Some(s2) => match jp_lit(s2, "}"@) {
                    None => None,
                    Some(s3) => Some((
                        Some(WindowLayout { pos_in_scrolling_layout: None }),
                        s3,
                    )),
                },
                None => match jp_lit(s1, "["@) {
                    None => None,
                    Some(s2) => match jp_u64(s2) {
                        None => None,
                        Some((c, s3)) => match jp_lit(s3, ","@) {
                            None => None,
                            Some(s4) => match jp_u64(s4) {
                                None => None,
                                Some((t, s5)) => match jp_lit(s5, "]}"@) {
                                    None => None,
                                    Some(s6) => Some((
                                        Some(
                                            WindowLayout {
                                                pos_in_scrolling_layout: Some((c, t)),
                                            },
                                        ),
                                        s6,
                                    )),
                                },
                            },
                        },
                    },
                },
            },
        },
    }
}

/// A window record, fields in the compositor's declaration order; the
/// trailing `layout` field may be absent.
pub open spec fn jp_window(s: Seq<char>) -> Option<(WindowV, Seq<char>)> {
    match jp_lit(s, "{\"id\":"@) {
        None => None,
        Some(s1) => match jp_u64(s1) {
            None => None,
            Some((id, s2)) => match jp_lit(s2, ",\"title\":"@) {
                None => None,
                Some(s3) => match jp_str(s3) {
                    None => None,
                    Some((title, s4)) => match jp_lit(s4, ",\"app_id\":"@) {
                        None => None,
                        Some(s5) => match jp_str(s5) {
                            None => None,
                            Some((app_id, s6)) => match jp_lit(s6, ",\"pid\":"@) {
                                None => None,
                                Some(s7) => match jp_u64(s7) {
                                    None => None,
                                    Some((pid, s8)) => if pid > 0xffff_ffff {
                                        None
                                    } else {
                                        jp_window_rest(s8, id, title, app_id, pid as u32)
                                    },
                                },
                            },
                        },
                    },
                },
            },
        },
    }
}

/// Continuation of `jp_window`: workspace id, flags and optional layout.
pub open spec fn jp_window_rest(
    s: Seq<char>,
    id: u64,
    title: Seq<char>,
    app_id: Seq<char>,
    pid: u32,
) -> Option<(WindowV, Seq<char>)> {
    match jp_lit(s, ",\"workspace_id\":"@) {
        None => None,
        Some(s1) => match jp_u64(s1) {
            None => None,
            Some((wsid, s2)) => match jp_lit(s2, ",\"is_focused\":"@) {
                None => None,
                Some(s3) => match jp_bool(s3) {
                    None => None,
                    Some((is_focused, s4)) => match jp_lit(s4, ",\"is_floating\":"@) {
                        None => None,
                        Some(s5) => match jp_bool(s5) {
                            None => None,
                            Some((is_floating, s6)) => match jp_lit(s6, ",\"is_urgent\":"@) {
                                None => None,
                                Some(s7) => match jp_bool(s7) {
                                    None => None,
                                    Some((is_urgent, s8)) => {
                                        let w = WindowV {
                                            id: id,
                                            title: title,
                                            app_id: app_id,
                                            pid: pid,
                                            workspace_id: wsid,
                                            is_focused: is_focused,
                                            is_floating: is_floating,
                                            is_urgent: is_urgent,
                                            layout: None,
                                        };
                                        match jp_lit(s8, ",\"layout\":"@) {
                                            Some(s9) => match jp_layout_value(s9) {
                                                None => None,
                                                Some((lay, s10)) => match jp_lit(s10, "}"@) {
                                                    None => None,
                                                    Some(s11) => Some((
                                                        WindowV { layout: lay, ..w },
                                                        s11,
                                                    )),
                                                },
                                            },
                                            None => match jp_lit(s8, "}"@) {
                                                None => None,
                                                Some(s9) => Some((w, s9)),
                                            },
                                        }
                                    },
                                },
                            },
                        },
                    },
                },
            },
        },
    }
}

pub proof fn lemma_jp_workspace_len(s: Seq<char>)
    requires
        jp_workspace(s) is Some,
    ensures
        jp_workspace(s)->Some_0.1.len() < s.len(),
{
    reveal_strlit("{\"id\":");
    let s1 = jp_lit(s, "{\"id\":"@)->Some_0;
    lemma_jp_u64_len(s1);
    let s2 = jp_u64(s1)->Some_0.1;
    let s3 = jp_lit(s2, ",\"idx\":"@)->Some_0;
    lemma_jp_u64_len(s3);
    let s4 = jp_u64(s3)->Some_0.1;
    let s5 = jp_lit(s4, ",\"name\":"@)->Some_0;
    lemma_jp_opt_str_len(s5);
    let s6 = jp_opt_str(s5)->Some_0.1;
    let s7 = jp_lit(s6, ",\"output\":"@)->Some_0;
    lemma_jp_opt_str_len(s7);
    let s8 = jp_opt_str(s7)->Some_0.1;
    lemma_jp_workspace_flags_len(s8);
}

proof fn lemma_jp_workspace_flags_len(s: Seq<char>)
    ensures
        forall|id: u64, idx: u8, name: Option<Seq<char>>, output: Option<Seq<char>>|
            #[trigger] jp_workspace_flags(s, id, idx, name, output) is Some
                ==> jp_workspace_flags(s, id, idx, name, output)->Some_0.1.len() <= s.len(),
{
    assert forall|id: u64, idx: u8, name: Option<Seq<char>>, output: Option<Seq<char>>|
        #[trigger] jp_workspace_flags(s, id, idx, name, output) is Some
            implies jp_workspace_flags(s, id, idx, name, output)->Some_0.1.len() <= s.len() by {
        let s1 = jp_lit(s, ",\"is_urgent\":"@)->Some_0;
        lemma_jp_bool_len(s1);
        let s2 = jp_bool(s1)->Some_0.1;
        let s3 = jp_lit(s2, ",\"is_active\":"@)->Some_0;
        lemma_jp_bool_len(s3);
        let s4 = jp_bool(s3)->Some_0.1;
        let s5 = jp_lit(s4, ",\"is_focused\":"@)->Some_0;
        lemma_jp_bool_len(s5);
        let s6 = jp_bool(s5)->Some_0.1;
        let s7 = jp_lit(s6, ",\"active_window_id\":"@)->Some_0;
        lemma_jp_opt_u64_len(s7);
    }
}

pub proof fn lemma_jp_window_len(s: Seq<char>)
    requires
        jp_window(s) is Some,
    ensures
        jp_window(s)->Some_0.1.len() < s.len(),
{
    reveal_strlit("{\"id\":");
    let s1 = jp_lit(s, "{\"id\":"@)->Some_0;
    lemma_jp_u64_len(s1);
    let s2 = jp_u64(s1)->Some_0.1;
    let s3 = jp_lit(s2, ",\"title\":"@)->Some_0;
    lemma_jp_str_len(s3);
    let s4 = jp_str(s3)->Some_0.1;
    let s5 = jp_lit(s4, ",\"app_id\":"@)->Some_0;
    lemma_jp_str_len(s5);
    let s6 = jp_str(s5)->Some_0.1;
    let s7 = jp_lit(s6, ",\"pid\":"@)->Some_0;
    lemma_jp_u64_len(s7);
    let s8 = jp_u64(s7)->Some_0.1;
    lemma_jp_window_rest_len(s8);
}

proof fn lemma_jp_window_rest_len(s: Seq<char>)
    ensures
        forall|id: u64, title: Seq<char>, app_id: Seq<char>, pid: u32|
            #[trigger] jp_window_rest(s, id, title, app_id, pid) is Some
                ==> jp_window_rest(s, id, title, app_id, pid)->Some_0.1.len() <= s.len(),
{
    assert forall|id: u64, title: Seq<char>, app_id: Seq<char>, pid: u32|
        #[trigger] jp_window_rest(s, id, title, app_id, pid) is Some
            implies jp_window_rest(s, id, title, app_id, pid)->Some_0.1.len() <= s.len() by {
        let s1 = jp_lit(s, ",\"workspace_id\":"@)->Some_0;
        lemma_jp_u64_len(s1);
        let s2 = jp_u64(s1)->Some_0.1;
        let s3 = jp_lit(s2, ",\"is_focused\":"@)->Some_0;
        lemma_jp_bool_len(s3);
        let s4 = jp_bool(s3)->Some_0.1;
        let s5 = jp_lit(s4, ",\"is_floating\":"@)->Some_0;
        lemma_jp_bool_len(s5);
        let s6 = jp_bool(s5)->Some_0.1;
        let s7 = jp_lit(s6, ",\"is_urgent\":"@)->Some_0;
        lemma_jp_bool_len(s7);
        let s8 = jp_bool(s7)->Some_0.1;
        if jp_lit(s8, ",\"layout\":"@) is Some {
            let s9 = jp_lit(s8, ",\"layout\":"@)->Some_0;
            lemma_jp_layout_value_len(s9);
        }
    }
}

proof fn lemma_jp_layout_value_len(s: Seq<char>)
    requires
        jp_layout_value(s) is Some,
    ensures
        jp_layout_value(s)->Some_0.1.len() <= s.len(),
{
    if jp_lit(s, "null"@) is None {
        let s1 = jp_lit(s, "{\"pos_in_scrolling_layout\":"@)->Some_0;
        if jp_lit(s1, "null"@) is None {
            let s2 = jp_lit(s1, "["@)->Some_0;
            lemma_jp_u64_len(s2);
            let s3 = jp_u64(s2)->Some_0.1;
            let s4 = jp_lit(s3, ","@)->Some_0;
            lemma_jp_u64_len(s4);
        }
    }
}

/// One or more comma-separated workspace records.
pub open spec fn jp_ws_items(s: Seq<char>) -> Option<(Seq<WorkspaceV>, Seq<char>)>
    decreases s.len()
        via jp_ws_items_dec
{
    match jp_workspace(s) {
        None => None,
        Some((w, r)) => {
            if r.len() > 0 && r[0] == ',' {
                match jp_ws_items(r.drop_first()) {
                    None => None,
                    Some((ws, r2)) => Some((seq![w] + ws, r2)),
                }
            } else {
                Some((seq![w], r))
            }
        },
    }
}

#[via_fn]
proof fn jp_ws_items_dec(s: Seq<char>) {
    if jp_workspace(s) is Some {
        lemma_jp_workspace_len(s);
    }
}

/// A JSON array of workspace records, possibly empty.
pub open spec fn jp_ws_list(s: Seq<char>) -> Option<(Seq<WorkspaceV>, Seq<char>)> {
    match jp_lit(s, "["@) {
        None => None,
        Some(s1) => match jp_lit(s1, "]"@) {
            Some(s2) => Some((Seq::empty(), s2)),
            None => match jp_ws_items(s1) {
                None => None,
                Some((ws, r)) => match jp_lit(r, "]"@) {
                    Some(r2) => Some((ws, r2)),
                    None => None,
                },
            },
        },
    }
}

/// One or more comma-separated window records.
pub open spec fn jp_win_items(s: Seq<char>) -> Option<(Seq<WindowV>, Seq<char>)>
    decreases s.len()
        via jp_win_items_dec
{
    match jp_window(s) {
        None => None,
        Some((w, r)) => {
            if r.len() > 0 && r[0] == ',' {
                match jp_win_items(r.drop_first()) {
                    None => None,
                    Some((ws, r2)) => Some((seq![w] + ws, r2)),
                }
            } else {
                Some((seq![w], r))
            }
        },
    }
}

#[via_fn]
proof fn jp_win_items_dec(s: Seq<char>) {
    if jp_window(s) is Some {
        lemma_jp_window_len(s);
    }
}

/// A JSON array of window records, possibly empty.
pub open spec fn jp_win_list(s: Seq<char>) -> Option<(Seq<WindowV>, Seq<char>)> {
    match jp_lit(s, "["@) {
        None => None,
        Some(s1) => match jp_lit(s1, "]"@) {
            Some(s2) => Some((Seq::empty(), s2)),
            None => match jp_win_items(s1) {
                None => None,
                Some((ws, r)) => match jp_lit(r, "]"@) {
                    Some(r2) => Some((ws, r2)),
                    None => None,
                },
            },
        },
    }
}

/// An event object, dispatched on its top-level tag.
pub open spec fn jp_event(s: Seq<char>) -> Option<(NiriEventV, Seq<char>)> {
    match jp_lit(s, "{\"WindowOpened\":{\"window\":"@) {
        Some(s1) => match jp_window(s1) {
            None => None,
            Some((w, s2)) => match jp_lit(s2, "}}"@) {
                None => None,
                Some(s3) => Some((NiriEventV::WindowOpened { window: w }, s3)),
            },
        },
        None => match jp_lit(s, "{\"WindowClosed\":{\"window_id\":"@) {
            Some(s1) => match jp_u64(s1) {
                None => None,
                Some((wid, s2)) => match jp_lit(s2, "}}"@) {
                    None => None,
                    Some(s3) => Some((NiriEventV::WindowClosed { window_id: wid }, s3)),
                },
            },
            None => match jp_lit(s, "{\"WindowFocusChanged\":{\"id\":"@) {
                Some(s1) => match jp_u64(s1) {
                    None => None,
                    Some((id, s2)) => match jp_lit(s2, "}}"@) {
                        None => None,
                        Some(s3) => Some((NiriEventV::WindowFocusChanged { id: id }, s3)),
                    },
                },
                None => match jp_lit(
                    s, "{\"WorkspaceActiveWindowChanged\":{\"workspace_id\":"@,
                ) {
                    Some(s1) => match jp_u64(s1) {
                        None => None,
                        Some((wsid, s2)) => match jp_lit(s2, ",\"active_window_id\":"@) {
                            None => None,
                            Some(s3) => match jp_u64(s3) {
                                None => None,
                                Some((awid, s4)) => match jp_lit(s4, "}}"@) {
                                    None => None,
                                    Some(s5) => Some((
                                        NiriEventV::WorkspaceActiveWindowChanged {
                                            workspace_id: wsid,
                                            active_window_id: awid,
                                        },
                                        s5,
                                    )),
                                },
                            },
                        },
                    },
                    None => None,
                },
            },
        },
    }
}

/// A whole event line: an event object with nothing after it.
pub open spec fn jp_event_line(s: Seq<char>) -> Option<NiriEventV> {
    match jp_event(s) {
        Some((e, r)) => if r.len() == 0 {
            Some(e)
        } else {
            None
        },
        None => None,
    }
}

/// A whole reply line.
///
/// A success envelope whose payload is none of the recognized shapes is
/// accepted as an empty acknowledgment without inspecting the payload.
pub open spec fn jp_response_line(s: Seq<char>) -> Option<NiriResponseV> {
    match jp_lit(s, "{\"Ok\":"@) {
        Some(s1) => match jp_lit(s1, "{\"Workspaces\":"@) {
            Some(s2) => match jp_ws_list(s2) {
                None => None,
                Some((ws, r)) => match jp_lit(r, "}}"@) {
                    Some(r2) => if r2.len() == 0 {
                        Some(NiriResponseV::Success(ResponseDataV::Workspaces(ws)))
                    } else {
                        None
                    },
                    None => None,
                },
            },
            None => match jp_lit(s1, "{\"Windows\":"@) {
                Some(s2) => match jp_win_list(s2) {
                    None => None,
                    Some((ws, r)) => match jp_lit(r, "}}"@) {
                        Some(r2) => if r2.len() == 0 {
                            Some(NiriResponseV::Success(ResponseDataV::Windows(ws)))
                        } else {
                            None
                        },
                        None => None,
                    },
                },
                None => match jp_lit(s1, "{\"Event\":"@) {
                    Some(s2) => match jp_event(s2) {
                        None => None,
                        Some((e, r)) => match jp_lit(r, "}}"@) {
                            Some(r2) => if r2.len() == 0 {
                                Some(NiriResponseV::Success(ResponseDataV::Event(e)))
                            } else {
                                None
                            },
                            None => None,
                        },
                    },
                    None => Some(NiriResponseV::Success(ResponseDataV::Empty)),
                },
            },
        },
        None => match jp_lit(s, "{\"Err\":"@) {
            Some(s1) => match jp_str(s1) {
                None => None,
                Some((m, r)) => match jp_lit(r, "}"@) {
                    Some(r2) => if r2.len() == 0 {
                        Some(NiriResponseV::Error(m))
                    } else {
                        None
                    },
                    None => None,
                },
            },
            None => None,
        },
    }
}

/// How one line of the subscribed event stream is treated.
pub ghost enum FrameClassV {
    /// The stream's own handshake acknowledgment; discarded.
    Ack,
    /// A genuine event, decoded.
    Event(NiriEventV),
    /// An unparseable line; dropped, never fatal.
    Drop,
}

/// Disambiguation of event-stream frames by shape: a frame whose
/// top-level key is `Ok` or `Err` is the stream's own acknowledgment; a
/// frame with a recognized event tag is a genuine event; everything else
/// is dropped.
pub open spec fn frame_class(s: Seq<char>) -> FrameClassV {
    if jp_lit(s, "{\"Ok\":"@) is Some || jp_lit(s, "{\"Err\":"@) is Some {
        FrameClassV::Ack
    } else {
        match jp_event_line(s) {
            Some(e) => FrameClassV::Event(e),
            None => FrameClassV::Drop,
        }
    }
}

// ---------------------------------------------------------------------------
// Executable printers
// ---------------------------------------------------------------------------

fn pe_size_change(out: &mut Vec<char>, c: &SizeChange)
    ensures
        final(out)@ == old(out)@ + je_size_change(*c),
{
    match c {
        SizeChange::SetFixed(x) => {
            pe_lit(out, "{\"SetFixed\":");
            pe_i32(out, *x);
            pe_lit(out, "}");
        },
        SizeChange::SetProportion(m) => {
            pe_lit(out, "{\"SetProportion\":");
            pe_milli(out, *m as u64);
            pe_lit(out, "}");
        },
        SizeChange::AdjustFixed(x) => {
            pe_lit(out, "{\"AdjustFixed\":");
            pe_i32(out, *x);
            pe_lit(out, "}");
        },
        SizeChange::AdjustProportion(x) => {
            pe_lit(out, "{\"AdjustProportion\":");
            pe_milli_i32(out, *x);
            pe_lit(out, "}");
        },
    }
}

fn pe_ws_ref(out: &mut Vec<char>, r: &WorkspaceReferenceArg)
    ensures
        final(out)@ == old(out)@ + je_ws_ref(r@),
{
    match r {
        WorkspaceReferenceArg::Index(n) => {
            pe_lit(out, "{\"Index\":");
            pe_u64(out, *n);
            pe_lit(out, "}");
        },
        WorkspaceReferenceArg::Name(t) => {
            pe_lit(out, "{\"Name\":");
            pe_str(out, t.as_str());
            pe_lit(out, "}");
        },
    }
}

fn pe_str_list(out: &mut Vec<char>, items: &Vec<String>)
    ensures
        final(out)@ == old(out)@ + je_str_list(items.deep_view()),
{
    pe_lit(out, "[");
    let ghost all = items.deep_view();
    proof {
        reveal_strlit("[");
        assert(out@ =~= old(out)@ + seq!['['] + je_str_items_upto(all, 0));
    }
    let mut i: usize = 0;
    while i < items.len()
        invariant
            i <= items.len(),
            all == items.deep_view(),
            all.len() == items.len(),
            out@ == old(out)@ + seq!['['] + je_str_items_upto(all, i as int),
        decreases items.len() - i,
    {
        if i > 0 {
            pe_lit(out, ",");
        }
        pe_str(out, items[i].as_str());
        proof {
            reveal_strlit(",");
            assert(items[i as int].deep_view() == all[i as int]);
            lemma_je_str_items_upto_step(all, i as int);
            if i > 0 {
                assert(out@ =~= old(out)@ + seq!['['] + (je_str_items_upto(all, i as int)
                    + seq![','] + je_str(all[i as int])));
            } else {
                assert(out@ =~= old(out)@ + seq!['['] + je_str(all[0]));
            }
        }
        i = i + 1;
    }
    pe_lit(out, "]");
    proof {
        reveal_strlit("]");
        lemma_je_str_items_upto_all(all);
        assert(out@ =~= old(out)@ + je_str_list(all));
    }
}

/// The comma-joined wire form of the first `k` strings of a list.
spec fn je_str_items_upto(items: Seq<Seq<char>>, k: int) -> Seq<char>
    decreases k,
{
    if k <= 0 {
        Seq::empty()
    } else if k == 1 {
        je_str(items[0])
    } else {
        je_str_items_upto(items, k - 1) + seq![','] + je_str(items[k - 1])
    }
}

proof fn lemma_je_str_items_upto_step(items: Seq<Seq<char>>, i: int)
    requires
        0 <= i < items.len(),
    ensures
        i == 0 ==> je_str_items_upto(items, 1) == je_str(items[0]),
        i > 0 ==> je_str_items_upto(items, i + 1) == je_str_items_upto(items, i) + seq![',']
            + je_str(items[i]),
{
}

proof fn lemma_je_str_items_upto_all(items: Seq<Seq<char>>)
    ensures
        je_str_items_upto(items, items.len() as int) == je_str_items(items),
    decreases items.len(),
{
    if items.len() > 1 {
        let t = items.drop_first();
        lemma_je_str_items_upto_all(t);
        lemma_je_str_items_upto_shift(items, items.len() as int);
    }
}

/// Dropping the first string moves the cut point of the prefix form.
proof fn lemma_je_str_items_upto_shift(items: Seq<Seq<char>>, k: int)
    requires
        2 <= k <= items.len(),
    ensures
        je_str_items_upto(items, k) == je_str(items[0]) + seq![','] + je_str_items_upto(
            items.drop_first(),
            k - 1,
        ),
    decreases k,
{
    let t = items.drop_first();
    if k == 2 {
        assert(je_str_items_upto(items, 2) == je_str_items_upto(items, 1) + seq![','] + je_str(
            items[1],
        ));
        assert(je_str_items_upto(t, 1) == je_str(t[0]));
        assert(t[0] == items[1]);
    } else {
        lemma_je_str_items_upto_shift(items, k - 1);
        assert(t[k - 2] == items[k - 1]);
        assert((je_str(items[0]) + seq![','] + je_str_items_upto(t, k - 2)) + seq![','] + je_str(
            items[k - 1],
        ) =~= je_str(items[0]) + seq![','] + (je_str_items_upto(t, k - 2) + seq![','] + je_str(
            t[k - 2],
        )));
    }
}

fn pe_action(out: &mut Vec<char>, a: &NiriAction)
    ensures
        final(out)@ == old(out)@ + je_action(a@),
{
    match a {
        NiriAction::Spawn { command } => {
            pe_lit(out, "{\"Spawn\":{\"command\":");
            pe_str_list(out, command);
            pe_lit(out, "}}");
        },
        NiriAction::SetWindowWidth { id, change } => {
            pe_lit(out, "{\"SetWindowWidth\":{\"id\":");
            pe_opt_u64(out, id);
            pe_lit(out, ",\"change\":");
            pe_size_change(out, change);
            pe_lit(out, "}}");
        },
        NiriAction::SetWindowHeight { id, change } => {
            pe_lit(out, "{\"SetWindowHeight\":{\"id\":");
            pe_opt_u64(out, id);
            pe_lit(out, ",\"change\":");
            pe_size_change(out, change);
            pe_lit(out, "}}");
        },
        NiriAction::MoveWindowToWorkspace { window_id, reference, focus } => {
            pe_lit(out, "{\"MoveWindowToWorkspace\":{\"window_id\":");
            pe_opt_u64(out, window_id);
            pe_lit(out, ",\"reference\":");
            pe_ws_ref(out, reference);
            pe_lit(out, ",\"focus\":");
            pe_bool(out, *focus);
            pe_lit(out, "}}");
        },
        NiriAction::FocusWindow { id } => {
            pe_lit(out, "{\"FocusWindow\":{\"id\":");
            pe_u64(out, *id);
            pe_lit(out, "}}");
        },
        NiriAction::MoveColumnLeft {} => {
            pe_lit(out, "{\"MoveColumnLeft\":{}}");
        },
        NiriAction::MoveColumnToFirst {} => {
            pe_lit(out, "{\"MoveColumnToFirst\":{}}");
        },
        NiriAction::FocusWorkspace { reference } => {
            pe_lit(out, "{\"FocusWorkspace\":{\"reference\":");
            pe_ws_ref(out, reference);
            pe_lit(out, "}}");
        },
        NiriAction::FocusColumnRight {} => {
            pe_lit(out, "{\"FocusColumnRight\":{}}");
        },
        NiriAction::FocusColumnLeft {} => {
            pe_lit(out, "{\"FocusColumnLeft\":{}}");
        },
        NiriAction::CenterColumn {} => {
            pe_lit(out, "{\"CenterColumn\":{}}");
        },
        NiriAction::SetColumnWidth { change } => {
            pe_lit(out, "{\"SetColumnWidth\":{\"change\":");
            pe_size_change(out, change);
            pe_lit(out, "}}");
        },
        NiriAction::MaximizeColumn {} => {
            pe_lit(out, "{\"MaximizeColumn\":{}}");
        },
    }
}

/// Prints one request as its wire line, exactly the canonical JSON form
/// given by `je_request`.
pub fn encode_request(req: &NiriRequest) -> (r: String)
    ensures
        r@ == je_request(req@),
{
    let mut out: Vec<char> = Vec::new();
    match req {
        NiriRequest::Workspaces => {
            pe_lit(&mut out, "\"Workspaces\"");
        },
        NiriRequest::Windows => {
            pe_lit(&mut out, "\"Windows\"");
        },
        NiriRequest::EventStream => {
            pe_lit(&mut out, "\"EventStream\"");
        },
        NiriRequest::Action(a) => {
            pe_lit(&mut out, "{\"Action\":");
            pe_action(&mut out, a);
            pe_lit(&mut out, "}");
        },
    }
    to_wire(&out)
}

// ---------------------------------------------------------------------------
// Executable parsers
// ---------------------------------------------------------------------------

fn p_size_change(v: &Vec<char>, pos: usize) -> (r: Option<(SizeChange, usize)>)
    requires
        pos <= v.len(),
    ensures
        match r {
            Some((c, j)) => pos <= j <= v.len() && jp_size_change(v@.skip(pos as int)) == Some(
                (c, v@.skip(j as int)),
            ),
            None => jp_size_change(v@.skip(pos as int)) is None,
        },
{
    if let Some(s1) = p_lit(v, pos, "{\"SetFixed\":") {
        match p_i32(v, s1) {
            Some((x, s2)) => match p_lit(v, s2, "}") {
                Some(s3) => Some((SizeChange::SetFixed(x), s3)),
                None => None,
            },
            None => None,
        }
    } else if let Some(s1) = p_lit(v, pos, "{\"SetProportion\":") {
        match p_milli(v, s1) {
            Some((m, s2)) => {
                if m > 0xffff_ffffu64 {
                    None
                } else {
                    match p_lit(v, s2, "}") {
                        Some(s3) => Some((SizeChange::SetProportion(m as u32), s3)),
                        None => None,
                    }
                }
            },
            None => None,
        }
    } else if let Some(s1) = p_lit(v, pos, "{\"AdjustFixed\":") {
        match p_i32(v, s1) {
            Some((x, s2)) => match p_lit(v, s2, "}") {
                Some(s3) => Some((SizeChange::AdjustFixed(x), s3)),
                None => None,
            },
            None => None,
        }
    } else if let Some(s1) = p_lit(v, pos, "{\"AdjustProportion\":") {
        match p_milli_i32(v, s1) {
            Some((x, s2)) => match p_lit(v, s2, "}") {
                Some(s3) => Some((SizeChange::AdjustProportion(x), s3)),
                None => None,
            },
            None => None,
        }
    } else {
        None
    }
}

fn p_ws_ref(v: &Vec<char>, pos: usize) -> (r: Option<(WorkspaceReferenceArg, usize)>)
    requires
        pos <= v.len(),
    ensures
        match r {
            Some((w, j)) => pos <= j <= v.len() && jp_ws_ref(v@.skip(pos as int)) == Some(
                (w@, v@.skip(j as int)),
            ),
            None => jp_ws_ref(v@.skip(pos as int)) is None,
        },
{
    if let Some(s1) = p_lit(v, pos, "{\"Index\":") {
        match p_u64(v, s1) {
            Some((n, s2)) => match p_lit(v, s2, "}") {
                Some(s3) => Some((WorkspaceReferenceArg::Index(n), s3)),
                None => None,
            },
            None => None,
        }
    } else if let Some(s1) = p_lit(v, pos, "{\"Name\":") {
        match p_str(v, s1) {
            Some((t, s2)) => match p_lit(v, s2, "}") {
                Some(s3) => Some((WorkspaceReferenceArg::Name(t), s3)),
                None => None,
            },
            None => None,
        }
    } else {
        None
    }
}

fn p_str_list(v: &Vec<char>, pos: usize) -> (r: Option<(Vec<String>, usize)>)
    requires
        pos <= v.len(),
    ensures
        match r {
            Some((items, j)) => pos <= j <= v.len() && jp_str_list(v@.skip(pos as int)) == Some(
                (items.deep_view(), v@.skip(j as int)),
            ),
            None => jp_str_list(v@.skip(pos as int)) is None,
        },
{
    let s0 = match p_lit(v, pos, "[") {
        Some(j) => j,
        None => {
            return None;
        },
    };
    if let Some(j) = p_lit(v, s0, "]") {
        let items: Vec<String> = Vec::new();
        proof {
            assert(items.deep_view() =~= Seq::<Seq<char>>::empty());
        }
        return Some((items, j));
    }
    let ghost start = v@.skip(s0 as int);
    let mut acc: Vec<String> = Vec::new();
    let mut i: usize = s0;
    proof {
        assert(acc.deep_view() =~= Seq::<Seq<char>>::empty());
    }
    loop
        invariant
            pos <= s0 <= i <= v.len(),
            start == v@.skip(s0 as int),
            jp_lit(v@.skip(pos as int), "["@) == Some(start),
            jp_lit(start, "]"@) is None,
            jp_str_items(start) == (match jp_str_items(v@.skip(i as int)) {
                Some((items, r)) => Some::<(Seq<Seq<char>>, Seq<char>)>(
                    (acc.deep_view() + items, r),
                ),
                None => None::<(Seq<Seq<char>>, Seq<char>)>,
            }),
        decreases v.len() - i,
    {
        match p_str(v, i) {
            None => {
                return None;
            },
            Some((t, j)) => {
                proof {
                    lemma_jp_str_len(v@.skip(i as int));
                }
                let ghost dv0 = acc.deep_view();
                acc.push(t);
                proof {
                    assert(acc.deep_view() =~= dv0.push(t@));
                }
                if j < v.len() && v[j] == ',' {
                    proof {
                        let cur = v@.skip(j as int);
                        assert(cur[0] == ',');
                        assert(cur.drop_first() =~= v@.skip(j + 1 as int));
                        assert(forall|items: Seq<Seq<char>>, r: Seq<char>|
                            jp_str_items(v@.skip(j + 1 as int)) == Some::<(
                                Seq<Seq<char>>,
                                Seq<char>,
                            )>((items, r)) ==> dv0 + (seq![t@] + items) =~= acc.deep_view()
                                + items);
                    }
                    i = j + 1;
                } else {
                    proof {
                        let cur = v@.skip(j as int);
                        assert(cur.len() == 0 || cur[0] != ',');
                        assert(jp_str_items(v@.skip(i as int)) == Some(
                            (seq![t@], v@.skip(j as int)),
                        ));
                        assert(dv0 + seq![t@] =~= acc.deep_view());
                    }
                    match p_lit(v, j, "]") {
                        Some(j2) => {
                            return Some((acc, j2));
                        },
                        None => {
                            return None;
                        },
                    }
                }
            },
        }
    }
}

fn p_action(v: &Vec<char>, pos: usize) -> (r: Option<(NiriAction, usize)>)
    requires
        pos <= v.len(),
    ensures
        match r {
            Some((a, j)) => pos <= j <= v.len() && jp_action(v@.skip(pos as int)) == Some(
                (a@, v@.skip(j as int)),
            ),
            None => jp_action(v@.skip(pos as int)) is None,
        },
{
    if let Some(s1) = p_lit(v, pos, "{\"Spawn\":{\"command\":") {
        match p_str_list(v, s1) {
            Some((items, s2)) => match p_lit(v, s2, "}}") {
                Some(s3) => Some((NiriAction::Spawn { command: items }, s3)),
                None => None,
            },
            None => None,
        }
    } else if let Some(s1) = p_lit(v, pos, "{\"SetWindowWidth\":{\"id\":") {
        match p_opt_u64(v, s1) {
            Some((id, s2)) => match p_lit(v, s2, ",\"change\":") {
                Some(s3) => match p_size_change(v, s3) {
                    Some((c, s4)) => match p_lit(v, s4, "}}") {
                        Some(s5) => Some((NiriAction::SetWindowWidth { id: id, change: c }, s5)),
                        None => None,
                    },
                    None => None,
                },
                None => None,
            },
            None => None,
        }
    } else if let Some(s1) = p_lit(v, pos, "{\"SetWindowHeight\":{\"id\":") {
        match p_opt_u64(v, s1) {
            Some((id, s2)) => match p_lit(v, s2, ",\"change\":") {
                Some(s3) => match p_size_change(v, s3) {
                    Some((c, s4)) => match p_lit(v, s4, "}}") {
                        Some(s5) => Some((NiriAction::SetWindowHeight { id: id, change: c }, s5)),
                        None => None,
                    },
                    None => None,
                },
                None => None,
            },
            None => None,
        }
    } else if let Some(s1) = p_lit(v, pos, "{\"MoveWindowToWorkspace\":{\"window_id\":") {
        match p_opt_u64(v, s1) {
            Some((wid, s2)) => match p_lit(v, s2, ",\"reference\":") {
                Some(s3) => match p_ws_ref(v, s3) {
                    Some((wr, s4)) => match p_lit(v, s4, ",\"focus\":") {
                        Some(s5) => match p_bool(v, s5) {
                            Some((f, s6)) => match p_lit(v, s6, "}}") {
                                Some(s7) => Some((
                                    NiriAction::MoveWindowToWorkspace {
                                        window_id: wid,
                                        reference: wr,
                                        focus: f,
                                    },
                                    s7,
                                )),
                                None => None,
                            },
                            None => None,
                        },
                        None => None,
                    },
                    None => None,
                },
                None => None,
            },
            None => None,
        }
    } else if let Some(s1) = p_lit(v, pos, "{\"FocusWindow\":{\"id\":") {
        match p_u64(v, s1) {
            Some((id, s2)) => match p_lit(v, s2, "}}") {
                Some(s3) => Some((NiriAction::FocusWindow { id: id }, s3)),
                None => None,
            },
            None => None,
        }
    } else if let Some(s1) = p_lit(v, pos, "{\"MoveColumnLeft\":{}}") {
        Some((NiriAction::MoveColumnLeft {}, s1))
    } else if let Some(s1) = p_lit(v, pos, "{\"MoveColumnToFirst\":{}}") {
        Some((NiriAction::MoveColumnToFirst {}, s1))
    } else if let Some(s1) = p_lit(v, pos, "{\"FocusWorkspace\":{\"reference\":") {
        match p_ws_ref(v, s1) {
            Some((wr, s2)) => match p_lit(v, s2, "}}") {
                Some(s3) => Some((NiriAction::FocusWorkspace { reference: wr }, s3)),
                None => None,
            },
            None => None,
        }
    } else if let Some(s1) = p_lit(v, pos, "{\"FocusColumnRight\":{}}") {
        Some((NiriAction::FocusColumnRight {}, s1))
    } else if let Some(s1) = p_lit(v, pos, "{\"FocusColumnLeft\":{}}") {
        Some((NiriAction::FocusColumnLeft {}, s1))
    } else if let Some(s1) = p_lit(v, pos, "{\"CenterColumn\":{}}") {
        Some((NiriAction::CenterColumn {}, s1))
    } else if let Some(s1) = p_lit(v, pos, "{\"SetColumnWidth\":{\"change\":") {
        match p_size_change(v, s1) {
            Some((c, s2)) => match p_lit(v, s2, "}}") {
                Some(s3) => Some((NiriAction::SetColumnWidth { change: c }, s3)),
                None => None,
            },
            None => None,
        }
    } else if let Some(s1) = p_lit(v, pos, "{\"MaximizeColumn\":{}}") {
        Some((NiriAction::MaximizeColumn {}, s1))
    } else {
        None
    }
}

/// Parses one whole request line back into a request value; the inverse
/// of `encode_request` on canonical lines.
pub fn decode_request(line: &str) -> (r: Option<NiriRequest>)
    ensures
        match r {
            Some(req) => jp_request(line@) == Some((req@, Seq::<char>::empty())),
            None => jp_request(line@) is None || jp_request(line@)->Some_0.1.len() != 0,
        },
{
    let v = from_wire(line);
    proof {
        assert(v@.skip(0) =~= line@);
    }
    let parsed: Option<(NiriRequest, usize)> = if let Some(s1) = p_lit(&v, 0, "\"Workspaces\"") {
        Some((NiriRequest::Workspaces, s1))
    } else if let Some(s1) = p_lit(&v, 0, "\"Windows\"") {
        Some((NiriRequest::Windows, s1))
    } else if let Some(s1) = p_lit(&v, 0, "\"EventStream\"") {
        Some((NiriRequest::EventStream, s1))
    } else if let Some(s1) = p_lit(&v, 0, "{\"Action\":") {
        match p_action(&v, s1) {
            Some((a, s2)) => match p_lit(&v, s2, "}") {
                Some(s3) => Some((NiriRequest::Action(a), s3)),
                None => None,
            },
            None => None,
        }
    } else {
        None
    };
    match parsed {
        Some((req, j)) => {
            if j == v.len() {
                proof {
                    assert(v@.skip(j as int) =~= Seq::<char>::empty());
                }
                Some(req)
            } else {
                proof {
                    assert(v@.skip(j as int).len() != 0);
                }
                None
            }
        },
        None => None,
    }
}

fn p_opt_str(v: &Vec<char>, pos: usize) -> (r: Option<(Option<String>, usize)>)
    requires
        pos <= v.len(),
    ensures
        match r {
            Some((o, j)) => pos <= j <= v.len() && jp_opt_str(v@.skip(pos as int)) == Some(
                (view_opt_str(o), v@.skip(j as int)),
            ),
            None => jp_opt_str(v@.skip(pos as int)) is None,
        },
{
    if let Some(j) = p_lit(v, pos, "null") {
        Some((None, j))
    } else {
        match p_str(v, pos) {
            Some((t, j)) => Some((Some(t), j)),
            None => None,
        }
    }
}

fn p_workspace(v: &Vec<char>, pos: usize) -> (r: Option<(Workspace, usize)>)
    requires
        pos <= v.len(),
    ensures
        match r {
            Some((w, j)) => pos <= j <= v.len() && jp_workspace(v@.skip(pos as int)) == Some(
                (w@, v@.skip(j as int)),
            ),
            None => jp_workspace(v@.skip(pos as int)) is None,
        },
{
    let s1 = match p_lit(v, pos, "{\"id\":") {
        Some(j) => j,
        None => {
            return None;
        },
    };
    let (id, s2) = match p_u64(v, s1) {
        Some(x) => x,
        None => {
            return None;
        },
    };
    let s3 = match p_lit(v, s2, ",\"idx\":") {
        Some(j) => j,
        None => {
            return None;
        },
    };
    let (idx, s4) = match p_u64(v, s3) {
        Some(x) => x,
        None => {
            return None;
        },
    };
    if idx > 255 {
        return None;
    }
    let s5 = match p_lit(v, s4, ",\"name\":") {
        Some(j) => j,
        None => {
            return None;
        },
    };
    let (name, s6) = match p_opt_str(v, s5) {
        Some(x) => x,
        None => {
            return None;
        },
    };
    let s7 = match p_lit(v, s6, ",\"output\":") {
        Some(j) => j,
        None => {
            return None;
        },
    };
    let (output, s8) = match p_opt_str(v, s7) {
        Some(x) => x,
        None => {
            return None;
        },
    };
    let s9 = match p_lit(v, s8, ",\"is_urgent\":") {
        Some(j) => j,
        None => {
            return None;
        },
    };
    let (is_urgent, s10) = match p_bool(v, s9) {
        Some(x) => x,
        None => {
            return None;
        },
    };
    let s11 = match p_lit(v, s10, ",\"is_active\":") {
        Some(j) => j,
        None => {
            return None;
        },
    };
    let (is_active, s12) = match p_bool(v, s11) {
        Some(x) => x,
        None => {
            return None;
        },
    };
    let s13 = match p_lit(v, s12, ",\"is_focused\":") {
        Some(j) => j,
        None => {
            return None;
        },
    };
    let (is_focused, s14) = match p_bool(v, s13) {
        Some(x) => x,
        None => {
            return None;
        },
    };
    let s15 = match p_lit(v, s14, ",\"active_window_id\":") {
        Some(j) => j,
        None => {
            return None;
        },
    };
    let (awid, s16) = match p_opt_u64(v, s15) {
        Some(x) => x,
        None => {
            return None;
        },
    };
    let s17 = match p_lit(v, s16, "}") {
        Some(j) => j,
        None => {
            return None;
        },
    };
    let w = Workspace {
        id: id,
        idx: idx as u8,
        name: name,
        output: output,
        is_urgent: is_urgent,
        is_active: is_active,
        is_focused: is_focused,
        active_window_id: awid,
    };
    Some((w, s17))
}

fn p_layout_value(v: &Vec<char>, pos: usize) -> (r: Option<(Option<WindowLayout>, usize)>)
    requires
        pos <= v.len(),
    ensures
        match r {
            Some((o, j)) => pos <= j <= v.len() && jp_layout_value(v@.skip(pos as int)) == Some(
                (o, v@.skip(j as int)),
            ),
            None => jp_layout_value(v@.skip(pos as int)) is None,
        },
{
    if let Some(j) = p_lit(v, pos, "null") {
        Some((None, j))
    } else if let Some(s1) = p_lit(v, pos, "{\"pos_in_scrolling_layout\":") {
        if let Some(s2) = p_lit(v, s1, "null") {
            match p_lit(v, s2, "}") {
                Some(s3) => Some((Some(WindowLayout { pos_in_scrolling_layout: None }), s3)),
                None => None,
            }
        } else if let Some(s2) = p_lit(v, s1, "[") {
            match p_u64(v, s2) {
                Some((c, s3)) => match p_lit(v, s3, ",") {
                    Some(s4) => match p_u64(v, s4) {
                        Some((t, s5)) => match p_lit(v, s5, "]}") {
                            Some(s6) => Some((
                                Some(WindowLayout { pos_in_scrolling_layout: Some((c, t)) }),
                                s6,
                            )),
                            None => None,
                        },
                        None => None,
                    },
                    None => None,
                },
                None => None,
            }
        } else {
            None
        }
    } else {
        None
    }
}

fn p_window(v: &Vec<char>, pos: usize) -> (r: Option<(Window, usize)>)
    requires
        pos <= v.len(),
    ensures
        match r {
            Some((w, j)) => pos <= j <= v.len() && jp_window(v@.skip(pos as int)) == Some(
                (w@, v@.skip(j as int)),
            ),
            None => jp_window(v@.skip(pos as int)) is None,
        },
{
    let s1 = match p_lit(v, pos, "{\"id\":") {
        Some(j) => j,
        None => {
            return None;
        },
    };
    let (id, s2) = match p_u64(v, s1) {
        Some(x) => x,
        None => {
            return None;
        },
    };
    let s3 = match p_lit(v, s2, ",\"title\":") {
        Some(j) => j,
        None => {
            return None;
        },
    };
    let (title, s4) = match p_str(v, s3) {
        Some(x) => x,
        None => {
            return None;
        },
    };
    let s5 = match p_lit(v, s4, ",\"app_id\":") {
        Some(j) => j,
        None => {
            return None;
        },
    };
    let (app_id, s6) = match p_str(v, s5) {
        Some(x) => x,
        None => {
            return None;
        },
    };
    let s7 = match p_lit(v, s6, ",\"pid\":") {
        Some(j) => j,
        None => {
            return None;
        },
    };
    let (pid, s8) = match p_u64(v, s7) {
        Some(x) => x,
        None => {
            return None;
        },
    };
    if pid > 0xffff_ffffu64 {
        return None;
    }
    let s9 = match p_lit(v, s8, ",\"workspace_id\":") {
        Some(j) => j,
        None => {
            return None;
        },
    };
    let (wsid, s10) = match p_u64(v, s9) {
        Some(x) => x,
        None => {
            return None;
        },
    };
    let s11 = match p_lit(v, s10, ",\"is_focused\":") {
        Some(j) => j,
        None => {
            return None;
        },
    };
    let (is_focused, s12) = match p_bool(v, s11) {
        Some(x) => x,
        None => {
            return None;
        },
    };
    let s13 = match p_lit(v, s12, ",\"is_floating\":") {
        Some(j) => j,
        None => {
            return None;
        },
    };
    let (is_floating, s14) = match p_bool(v, s13) {
        Some(x) => x,
        None => {
            return None;
        },
    };
    let s15 = match p_lit(v, s14, ",\"is_urgent\":") {
        Some(j) => j,
        None => {
            return None;
        },
    };
    let (is_urgent, s16) = match p_bool(v, s15) {
        Some(x) => x,
        None => {
            return None;
        },
    };
    let mut w = Window {
        id: id,
        title: title,
        app_id: app_id,
        pid: pid as u32,
        workspace_id: wsid,
        is_focused: is_focused,
        is_floating: is_floating,
        is_urgent: is_urgent,
        layout: None,
    };
    if let Some(s17) = p_lit(v, s16, ",\"layout\":") {
        let (lay, s18) = match p_layout_value(v, s17) {
            Some(x) => x,
            None => {
                return None;
            },
        };
        let s19 = match p_lit(v, s18, "}") {
            Some(j) => j,
            None => {
                return None;
            },
        };
        w.layout = lay;
        Some((w, s19))
    } else {
        let s17 = match p_lit(v, s16, "}") {
            Some(j) => j,
            None => {
                return None;
            },
        };
        Some((w, s17))
    }
}

fn p_ws_list(v: &Vec<char>, pos: usize) -> (r: Option<(Vec<Workspace>, usize)>)
    requires
        pos <= v.len(),
    ensures
        match r {
            Some((items, j)) => pos <= j <= v.len() && jp_ws_list(v@.skip(pos as int)) == Some(
                (items@.map_values(|w: Workspace| w@), v@.skip(j as int)),
            ),
            None => jp_ws_list(v@.skip(pos as int)) is None,
        },
{
    let s0 = match p_lit(v, pos, "[") {
        Some(j) => j,
        None => {
            return None;
        },
    };
    if let Some(j) = p_lit(v, s0, "]") {
        let items: Vec<Workspace> = Vec::new();
        proof {
            assert(items@.map_values(|w: Workspace| w@) =~= Seq::<WorkspaceV>::empty());
        }
        return Some((items, j));
    }
    let ghost start = v@.skip(s0 as int);
    let mut acc: Vec<Workspace> = Vec::new();
    let mut i: usize = s0;
    proof {
        assert(acc@.map_values(|w: Workspace| w@) =~= Seq::<WorkspaceV>::empty());
    }
    loop
        invariant
            pos <= s0 <= i <= v.len(),
            start == v@.skip(s0 as int),
            jp_lit(v@.skip(pos as int), "["@) == Some(start),
            jp_lit(start, "]"@) is None,
            jp_ws_items(start) == (match jp_ws_items(v@.skip(i as int)) {
                Some((items, r)) => Some::<(Seq<WorkspaceV>, Seq<char>)>(
                    (acc@.map_values(|w: Workspace| w@) + items, r),
                ),
                None => None::<(Seq<WorkspaceV>, Seq<char>)>,
            }),
        decreases v.len() - i,
    {
        match p_workspace(v, i) {
            None => {
                return None;
            },
            Some((w, j)) => {
                proof {
                    lemma_jp_workspace_len(v@.skip(i as int));
                }
                let ghost dv0 = acc@.map_values(|x: Workspace| x@);
                acc.push(w);
                proof {
                    assert(acc@.map_values(|x: Workspace| x@) =~= dv0.push(w@));
                }
                if j < v.len() && v[j] == ',' {
                    proof {
                        let cur = v@.skip(j as int);
                        assert(cur[0] == ',');
                        assert(cur.drop_first() =~= v@.skip(j + 1 as int));
                        assert(forall|items: Seq<WorkspaceV>, r: Seq<char>|
                            jp_ws_items(v@.skip(j + 1 as int)) == Some::<(
                                Seq<WorkspaceV>,
                                Seq<char>,
                            )>((items, r)) ==> dv0 + (seq![w@] + items) =~= acc@.map_values(
                                |x: Workspace| x@,
                            ) + items);
                    }
                    i = j + 1;
                } else {
                    proof {
                        let cur = v@.skip(j as int);
                        assert(cur.len() == 0 || cur[0] != ',');
                        assert(jp_ws_items(v@.skip(i as int)) == Some(
                            (seq![w@], v@.skip(j as int)),
                        ));
                        assert(dv0 + seq![w@] =~= acc@.map_values(|x: Workspace| x@));
                    }
                    match p_lit(v, j, "]") {
                        Some(j2) => {
                            return Some((acc, j2));
                        },
                        None => {
                            return None;
                        },
                    }
                }
            },
        }
    }
}

fn p_win_list(v: &Vec<char>, pos: usize) -> (r: Option<(Vec<Window>, usize)>)
    requires
        pos <= v.len(),
    ensures
        match r {
            Some((items, j)) => pos <= j <= v.len() && jp_win_list(v@.skip(pos as int)) == Some(
                (items@.map_values(|w: Window| w@), v@.skip(j as int)),
            ),
            None => jp_win_list(v@.skip(pos as int)) is None,
        },
{
    let s0 = match p_lit(v, pos, "[") {
        Some(j) => j,
        None => {
            return None;
        },
    };
    if let Some(j) = p_lit(v, s0, "]") {
        let items: Vec<Window> = Vec::new();
        proof {
            assert(items@.map_values(|w: Window| w@) =~= Seq::<WindowV>::empty());
        }
        return Some((items, j));
    }
    let ghost start = v@.skip(s0 as int);
    let mut acc: Vec<Window> = Vec::new();
    let mut i: usize = s0;
    proof {
        assert(acc@.map_values(|w: Window| w@) =~= Seq::<WindowV>::empty());
    }
    loop
        invariant
            pos <= s0 <= i <= v.len(),
            start == v@.skip(s0 as int),
            jp_lit(v@.skip(pos as int), "["@) == Some(start),
            jp_lit(start, "]"@) is None,
            jp_win_items(start) == (match jp_win_items(v@.skip(i as int)) {
                Some((items, r)) => Some::<(Seq<WindowV>, Seq<char>)>(
                    (acc@.map_values(|w: Window| w@) + items, r),
                ),
                None => None::<(Seq<WindowV>, Seq<char>)>,
            }),
        decreases v.len() - i,
    {
        match p_window(v, i) {
            None => {
                return None;
            },
            Some((w, j)) => {
                proof {
                    lemma_jp_window_len(v@.skip(i as int));
                }
                let ghost dv0 = acc@.map_values(|x: Window| x@);
                acc.push(w);
                proof {
                    assert(acc@.map_values(|x: Window| x@) =~= dv0.push(w@));
                }
                if j < v.len() && v[j] == ',' {
                    proof {
                        let cur = v@.skip(j as int);
                        assert(cur[0] == ',');
                        assert(cur.drop_first() =~= v@.skip(j + 1 as int));
                        assert(forall|items: Seq<WindowV>, r: Seq<char>|
                            jp_win_items(v@.skip(j + 1 as int)) == Some::<(
                                Seq<WindowV>,
                                Seq<char>,
                            )>((items, r)) ==> dv0 + (seq![w@] + items) =~= acc@.map_values(
                                |x: Window| x@,
                            ) + items);
                    }
                    i = j + 1;
                } else {
                    proof {
                        let cur = v@.skip(j as int);
                        assert(cur.len() == 0 || cur[0] != ',');
                        assert(jp_win_items(v@.skip(i as int)) == Some(
                            (seq![w@], v@.skip(j as int)),
                        ));
                        assert(dv0 + seq![w@] =~= acc@.map_values(|x: Window| x@));
                    }
                    match p_lit(v, j, "]") {
                        Some(j2) => {
                            return Some((acc, j2));
                        },
                        None => {
                            return None;
                        },
                    }
                }
            },
        }
    }
}

fn p_event(v: &Vec<char>, pos: usize) -> (r: Option<(NiriEvent, usize)>)
    requires
        pos <= v.len(),
    ensures
        match r {
            Some((e, j)) => pos <= j <= v.len() && jp_event(v@.skip(pos as int)) == Some(
                (e@, v@.skip(j as int)),
            ),
            None => jp_event(v@.skip(pos as int)) is None,
        },
{
    if let Some(s1) = p_lit(v, pos, "{\"WindowOpened\":{\"window\":") {
        match p_window(v, s1) {
            Some((w, s2)) => match p_lit(v, s2, "}}") {
                Some(s3) => Some((NiriEvent::WindowOpened { window: w }, s3)),
                None => None,
            },
            None => None,
        }
    } else if let Some(s1) = p_lit(v, pos, "{\"WindowClosed\":{\"window_id\":") {
        match p_u64(v, s1) {
            Some((wid, s2)) => match p_lit(v, s2, "}}") {
                Some(s3) => Some((NiriEvent::WindowClosed { window_id: wid }, s3)),
                None => None,
            },
            None => None,
        }
    } else if let Some(s1) = p_lit(v, pos, "{\"WindowFocusChanged\":{\"id\":") {
        match p_u64(v, s1) {
            Some((id, s2)) => match p_lit(v, s2, "}}") {
                Some(s3) => Some((NiriEvent::WindowFocusChanged { id: id }, s3)),
                None => None,
            },
            None => None,
        }
    } else if let Some(s1) = p_lit(v, pos, "{\"WorkspaceActiveWindowChanged\":{\"workspace_id\":") {
        match p_u64(v, s1) {
            Some((wsid, s2)) => match p_lit(v, s2, ",\"active_window_id\":") {
                Some(s3) => match p_u64(v, s3) {
                    Some((awid, s4)) => match p_lit(v, s4, "}}") {
                        Some(s5) => Some((
                            NiriEvent::WorkspaceActiveWindowChanged {
                                workspace_id: wsid,
                                active_window_id: awid,
                            },
                            s5,
                        )),
                        None => None,
                    },
                    None => None,
                },
                None => None,
            },
            None => None,
        }
    } else {
        None
    }
}

/// Parses one whole reply line.
///
/// A line that is no well-formed reply envelope is reported as a decode
/// failure; an error envelope is returned as the compositor's error.
pub fn decode_response(line: &str) -> (r: Option<NiriResponse>)
    ensures
        match r {
            Some(resp) => jp_response_line(line@) == Some(resp@),
            None => jp_response_line(line@) is None,
        },
{
    let v = from_wire(line);
    proof {
        assert(v@.skip(0) =~= line@);
    }
    if let Some(s1) = p_lit(&v, 0, "{\"Ok\":") {
        if let Some(s2) = p_lit(&v, s1, "{\"Workspaces\":") {
            match p_ws_list(&v, s2) {
                Some((ws, r0)) => match p_lit(&v, r0, "}}") {
                    Some(r2) => {
                        if r2 == v.len() {
                            proof {
                                assert(v@.skip(r2 as int) =~= Seq::<char>::empty());
                            }
                            Some(NiriResponse::Success(ResponseData::Workspaces(ws)))
                        } else {
                            proof {
                                assert(v@.skip(r2 as int).len() != 0);
                            }
                            None
                        }
                    },
                    None => None,
                },
                None => None,
            }
        } else if let Some(s2) = p_lit(&v, s1, "{\"Windows\":") {
            match p_win_list(&v, s2) {
                Some((ws, r0)) => match p_lit(&v, r0, "}}") {
                    Some(r2) => {
                        if r2 == v.len() {
                            proof {
                                assert(v@.skip(r2 as int) =~= Seq::<char>::empty());
                            }
                            Some(NiriResponse::Success(ResponseData::Windows(ws)))
                        } else {
                            proof {
                                assert(v@.skip(r2 as int).len() != 0);
                            }
                            None
                        }
                    },
                    None => None,
                },
                None => None,
            }
        } else if let Some(s2) = p_lit(&v, s1, "{\"Event\":") {
            match p_event(&v, s2) {
                Some((e, r0)) => match p_lit(&v, r0, "}}") {
                    Some(r2) => {
                        if r2 == v.len() {
                            proof {
                                assert(v@.skip(r2 as int) =~= Seq::<char>::empty());
                            }
                            Some(NiriResponse::Success(ResponseData::Event(e)))
                        } else {
                            proof {
                                assert(v@.skip(r2 as int).len() != 0);
                            }
                            None
                        }
                    },
                    None => None,
                },
                None => None,
            }
        } else {
            Some(NiriResponse::Success(ResponseData::Empty))
        }
    } else if let Some(s1) = p_lit(&v, 0, "{\"Err\":") {
        match p_str(&v, s1) {
            Some((m, r0)) => match p_lit(&v, r0, "}") {
                Some(r2) => {
                    if r2 == v.len() {
                        proof {
                            assert(v@.skip(r2 as int) =~= Seq::<char>::empty());
                        }
                        Some(NiriResponse::Error(m))
                    } else {
                        proof {
                            assert(v@.skip(r2 as int).len() != 0);
                        }
                        None
                    }
                },
                None => None,
            },
            None => None,
        }
    } else {
        None
    }
}

/// How one line of the subscribed event stream is treated.
#[derive(Debug, Clone, PartialEq, Eq)]
pub enum FrameClass {
    /// The stream's own handshake acknowledgment; discarded.
    Ack,
    /// A genuine event, decoded.
    Event(NiriEvent),
    /// An unparseable line; dropped, never fatal.
    Drop,
}

impl View for FrameClass {
    type V = FrameClassV;

    open spec fn view(&self) -> FrameClassV {
        match *self {
            FrameClass::Ack => FrameClassV::Ack,
            FrameClass::Event(ref e) => FrameClassV::Event(e@),
            FrameClass::Drop => FrameClassV::Drop,
        }
    }
}

/// Classifies one line of the event stream by shape: an envelope whose
/// top-level key is `Ok` or `Err` is the stream's own acknowledgment and
/// is never yielded as an event; a line with a recognized event tag
/// decodes to the matching event variant; anything else is dropped.
pub fn classify_frame(line: &str) -> (r: FrameClass)
    ensures
        r@ == frame_class(line@),
{
    let v = from_wire(line);
    proof {
        assert(v@.skip(0) =~= line@);
    }
    if let Some(_j) = p_lit(&v, 0, "{\"Ok\":") {
        FrameClass::Ack
    } else if let Some(_j) = p_lit(&v, 0, "{\"Err\":") {
        FrameClass::Ack
    } else {
        match p_event(&v, 0) {
            Some((e, j)) => {
                if j == v.len() {
                    proof {
                        assert(v@.skip(j as int) =~= Seq::<char>::empty());
                    }
                    FrameClass::Event(e)
                } else {
                    proof {
                        assert(v@.skip(j as int).len() != 0);
                    }
                    FrameClass::Drop
                }
            },
            None => FrameClass::Drop,
        }
    }
}

/// The events that a sequence of stream lines yields, in order:
/// acknowledgment and unparseable lines contribute nothing, and each
/// recognized event line contributes exactly its one decoded event.
pub open spec fn events_of(lines: Seq<Seq<char>>) -> Seq<NiriEventV>
    decreases lines.len(),
{
    if lines.len() == 0 {
        Seq::empty()
    } else {
        (match frame_class(lines[0]) {
            FrameClassV::Event(e) => seq![e],
            _ => Seq::empty(),
        }) + events_of(lines.drop_first())
    }
}

proof fn lemma_events_of_snoc(lines: Seq<Seq<char>>, s: Seq<char>)
    ensures
        events_of(lines.push(s)) == events_of(lines) + (match frame_class(s) {
            FrameClassV::Event(e) => seq![e],
            _ => Seq::<NiriEventV>::empty(),
        }),
    decreases lines.len(),
{
    let whole = lines.push(s);
    if lines.len() == 0 {
        reveal_with_fuel(events_of, 2);
        assert(whole[0] == s);
        assert(whole.drop_first() =~= Seq::<Seq<char>>::empty());
        let part = (match frame_class(s) {
            FrameClassV::Event(e) => seq![e],
            _ => Seq::<NiriEventV>::empty(),
        });
        assert(events_of(whole) == part + events_of(whole.drop_first()));
        assert(events_of(whole) =~= part);
        assert(events_of(lines) + part =~= part);
    } else {
        assert(whole[0] == lines[0]);
        assert(whole.drop_first() =~= lines.drop_first().push(s));
        lemma_events_of_snoc(lines.drop_first(), s);
        let tail = (match frame_class(s) {
            FrameClassV::Event(e) => seq![e],
            _ => Seq::<NiriEventV>::empty(),
        });
        let head = (match frame_class(lines[0]) {
            FrameClassV::Event(e) => seq![e],
            _ => Seq::<NiriEventV>::empty(),
        });
        assert(events_of(whole) == head + events_of(whole.drop_first()));
        assert(events_of(whole.drop_first()) == events_of(lines.drop_first()) + tail);
        assert(events_of(lines) == head + events_of(lines.drop_first()));
        assert(head + (events_of(lines.drop_first()) + tail) =~= (head + events_of(
            lines.drop_first(),
        )) + tail);
    }
}

/// Filters a batch of stream lines down to its genuine events: no
/// acknowledgment frame is ever yielded, and each recognized event line
/// is yielded exactly once, decoded to the matching variant.
pub fn filter_event_frames(lines: &Vec<String>) -> (r: Vec<NiriEvent>)
    ensures
        r@.map_values(|e: NiriEvent| e@) == events_of(lines.deep_view()),
{
    let mut out: Vec<NiriEvent> = Vec::new();
    proof {
        assert(out@.map_values(|e: NiriEvent| e@) =~= Seq::<NiriEventV>::empty());
        assert(lines.deep_view().take(0) =~= Seq::<Seq<char>>::empty());
    }
    let mut i: usize = 0;
    while i < lines.len()
        invariant
            i <= lines.len(),
            lines.deep_view().len() == lines.len(),
            out@.map_values(|e: NiriEvent| e@) == events_of(lines.deep_view().take(i as int)),
        decreases lines.len() - i,
    {
        let ghost dv0 = out@.map_values(|e: NiriEvent| e@);
        let c = classify_frame(lines[i].as_str());
        match c {
            FrameClass::Event(e) => {
                out.push(e);
                proof {
                    assert(out@.map_values(|x: NiriEvent| x@) =~= dv0.push(e@));
                }
            },
            _ => {},
        }
        proof {
            assert(lines[i as int].deep_view() == lines.deep_view()[i as int]);
            lemma_events_of_snoc(lines.deep_view().take(i as int), lines.deep_view()[i as int]);
            assert(lines.deep_view().take(i + 1 as int) =~= lines.deep_view().take(
                i as int,
            ).push(lines.deep_view()[i as int]));
        }
        i = i + 1;
    }
    proof {
        assert(lines.deep_view().take(lines.len() as int) =~= lines.deep_view());
    }
    out
}

} // verus!
