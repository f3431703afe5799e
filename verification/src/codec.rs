//! The configuration document codec: how a configuration is written as one
//! JSON object and how a stored object is read back.
//!
//! The reader is tolerant by design: unknown members are skipped, a known
//! member whose value has the wrong shape falls back to that field's
//! default, and a missing member keeps its default.  The round-trip theorem
//! at the bottom proves that a document the writer produced is read back
//! field for field.

use vstd::prelude::*;
use crate::conf::{ChatConfJson, ConfView, default_origin_chars};
use crate::json::{
    bool_text, escape_char, escape_string, is_ws, lit_false, lit_true, parse_bool,
    parse_string, quoted, scan_value, skip_ws, lemma_bool_round_trip,
    lemma_escape_string_app, lemma_skip_ws_clean, lemma_string_round_trip, parse_bool_at,
    parse_string_at, push_char, scan_value_at, skip_ws_at, str_eq, str_to_chars,
};
use vstd::string::StringExecFns;
use crate::theme::Theme;

verus! {

/// The members of the configuration document, in the order the writer
/// emits them.
#[derive(Clone, Copy, Debug, PartialEq, Eq, Structural)]
pub enum FieldId {
    Theme,
    AutoUpdate,
    Tray,
    PopupSearch,
    StayOnTop,
    DefaultOrigin,
    Origin,
    UaWindow,
    UaTray,
    GlobalShortcut,
    Titlebar,
    HideDockIcon,
}

pub open spec fn key_theme() -> Seq<char> {
    seq!['t', 'h', 'e', 'm', 'e']
}

pub open spec fn key_auto_update() -> Seq<char> {
    seq!['a', 'u', 't', 'o', '_', 'u', 'p', 'd', 'a', 't', 'e']
}

pub open spec fn key_tray() -> Seq<char> {
    seq!['t', 'r', 'a', 'y']
}

pub open spec fn key_popup_search() -> Seq<char> {
    seq!['p', 'o', 'p', 'u', 'p', '_', 's', 'e', 'a', 'r', 'c', 'h']
}

pub open spec fn key_stay_on_top() -> Seq<char> {
    seq!['s', 't', 'a', 'y', '_', 'o', 'n', '_', 't', 'o', 'p']
}

pub open spec fn key_default_origin() -> Seq<char> {
    seq!['d', 'e', 'f', 'a', 'u', 'l', 't', '_', 'o', 'r', 'i', 'g', 'i', 'n']
}

pub open spec fn key_origin() -> Seq<char> {
    seq!['o', 'r', 'i', 'g', 'i', 'n']
}

pub open spec fn key_ua_window() -> Seq<char> {
    seq!['u', 'a', '_', 'w', 'i', 'n', 'd', 'o', 'w']
}

pub open spec fn key_ua_tray() -> Seq<char> {
    seq!['u', 'a', '_', 't', 'r', 'a', 'y']
}

pub open spec fn key_global_shortcut() -> Seq<char> {
    seq!['g', 'l', 'o', 'b', 'a', 'l', '_', 's', 'h', 'o', 'r', 't', 'c', 'u', 't']
}

pub open spec fn key_titlebar() -> Seq<char> {
    seq!['t', 'i', 't', 'l', 'e', 'b', 'a', 'r']
}

pub open spec fn key_hide_dock_icon() -> Seq<char> {
    seq!['h', 'i', 'd', 'e', '_', 'd', 'o', 'c', 'k', '_', 'i', 'c', 'o', 'n']
}

/// The key under which a member is stored.
pub open spec fn field_key(f: FieldId) -> Seq<char> {
    match f {
        FieldId::Theme => key_theme(),
        FieldId::AutoUpdate => key_auto_update(),
        FieldId::Tray => key_tray(),
        FieldId::PopupSearch => key_popup_search(),
        FieldId::StayOnTop => key_stay_on_top(),
        FieldId::DefaultOrigin => key_default_origin(),
        FieldId::Origin => key_origin(),
        FieldId::UaWindow => key_ua_window(),
        FieldId::UaTray => key_ua_tray(),
        FieldId::GlobalShortcut => key_global_shortcut(),
        FieldId::Titlebar => key_titlebar(),
        FieldId::HideDockIcon => key_hide_dock_icon(),
    }
}

/// The text of a member's value.
pub open spec fn field_text(f: FieldId, c: ConfView) -> Seq<char> {
    match f {
        FieldId::Theme => quoted(c.theme.spec_name()),
        FieldId::AutoUpdate => bool_text(c.auto_update),
        FieldId::Tray => bool_text(c.tray),
        FieldId::PopupSearch => bool_text(c.popup_search),
        FieldId::StayOnTop => bool_text(c.stay_on_top),
        FieldId::DefaultOrigin => quoted(c.default_origin),
        FieldId::Origin => quoted(c.origin),
        FieldId::UaWindow => quoted(c.ua_window),
        FieldId::UaTray => quoted(c.ua_tray),
        FieldId::GlobalShortcut => quoted(c.global_shortcut),
        FieldId::Titlebar => bool_text(c.titlebar),
        FieldId::HideDockIcon => bool_text(c.hide_dock_icon),
    }
}

/// The text of one member: quoted key, colon, value.
pub open spec fn member_text(f: FieldId, c: ConfView) -> Seq<char> {
    quoted(field_key(f)) + seq![':'] + field_text(f, c)
}

/// Every member, in the order written.
pub open spec fn all_fields() -> Seq<FieldId> {
    seq![
        FieldId::Theme,
        FieldId::AutoUpdate,
        FieldId::Tray,
        FieldId::PopupSearch,
        FieldId::StayOnTop,
        FieldId::DefaultOrigin,
        FieldId::Origin,
        FieldId::UaWindow,
        FieldId::UaTray,
        FieldId::GlobalShortcut,
        FieldId::Titlebar,
        FieldId::HideDockIcon,
    ]
}

/// The comma-separated member list.
pub open spec fn ser_members(fs: Seq<FieldId>, c: ConfView) -> Seq<char>
    decreases fs.len(),
{
    if fs.len() == 0 {
        Seq::empty()
    } else if fs.len() == 1 {
        member_text(fs[0], c)
    } else {
        member_text(fs[0], c) + seq![','] + ser_members(fs.skip(1), c)
    }
}

/// The whole document as written.
pub open spec fn ser_doc(c: ConfView) -> Seq<char> {
    seq!['{'] + ser_members(all_fields(), c) + seq!['}']
}

/// The keys whose members hold a string.
pub open spec fn is_str_key(key: Seq<char>) -> bool {
    ||| key == key_theme()
    ||| key == key_default_origin()
    ||| key == key_origin()
    ||| key == key_ua_window()
    ||| key == key_ua_tray()
    ||| key == key_global_shortcut()
}

/// The keys whose members hold a boolean.
pub open spec fn is_bool_key(key: Seq<char>) -> bool {
    ||| key == key_auto_update()
    ||| key == key_tray()
    ||| key == key_popup_search()
    ||| key == key_stay_on_top()
    ||| key == key_titlebar()
    ||| key == key_hide_dock_icon()
}

/// The field named by a string-valued key set from the parsed string `v`.
pub open spec fn set_str_field(acc: ConfView, key: Seq<char>, v: Seq<char>) -> ConfView {
    if key == key_theme() {
        ConfView { theme: Theme::spec_of_name(v), ..acc }
    } else if key == key_default_origin() {
        ConfView { default_origin: v, ..acc }
    } else if key == key_origin() {
        ConfView { origin: v, ..acc }
    } else if key == key_ua_window() {
        ConfView { ua_window: v, ..acc }
    } else if key == key_ua_tray() {
        ConfView { ua_tray: v, ..acc }
    } else if key == key_global_shortcut() {
        ConfView { global_shortcut: v, ..acc }
    } else {
        acc
    }
}

/// The field named by a boolean-valued key set from the parsed boolean.
pub open spec fn set_bool_field(acc: ConfView, key: Seq<char>, v: bool) -> ConfView {
    if key == key_auto_update() {
        ConfView { auto_update: v, ..acc }
    } else if key == key_tray() {
        ConfView { tray: v, ..acc }
    } else if key == key_popup_search() {
        ConfView { popup_search: v, ..acc }
    } else if key == key_stay_on_top() {
        ConfView { stay_on_top: v, ..acc }
    } else if key == key_titlebar() {
        ConfView { titlebar: v, ..acc }
    } else if key == key_hide_dock_icon() {
        ConfView { hide_dock_icon: v, ..acc }
    } else {
        acc
    }
}

/// The field named by `key` put back to its default; unknown keys change
/// nothing.  This is the repair applied to a member whose value has the
/// wrong shape.
pub open spec fn reset_field(acc: ConfView, key: Seq<char>) -> ConfView {
    if key == key_theme() {
        ConfView { theme: Theme::System, ..acc }
    } else if key == key_default_origin() {
        ConfView { default_origin: default_origin_chars(), ..acc }
    } else if key == key_origin() {
        ConfView { origin: default_origin_chars(), ..acc }
    } else if key == key_ua_window() {
        ConfView { ua_window: Seq::empty(), ..acc }
    } else if key == key_ua_tray() {
        ConfView { ua_tray: Seq::empty(), ..acc }
    } else if key == key_global_shortcut() {
        ConfView { global_shortcut: Seq::empty(), ..acc }
    } else if key == key_auto_update() {
        ConfView { auto_update: true, ..acc }
    } else if key == key_tray() {
        ConfView { tray: true, ..acc }
    } else if key == key_popup_search() {
        ConfView { popup_search: false, ..acc }
    } else if key == key_stay_on_top() {
        ConfView { stay_on_top: false, ..acc }
    } else if key == key_titlebar() {
        ConfView { titlebar: false, ..acc }
    } else if key == key_hide_dock_icon() {
        ConfView { hide_dock_icon: false, ..acc }
    } else {
        acc
    }
}

/// Read one member's value, given its key, and fold it into `acc`.
#[verifier::opaque]
pub open spec fn parse_field_value(key: Seq<char>, acc: ConfView, s: Seq<char>) -> Option<
    (ConfView, Seq<char>),
> {
    if is_str_key(key) {
        match parse_string(s) {
            Some(p) => Some((set_str_field(acc, key, p.0), p.1)),
            None => match scan_value(s) {
                Some(r) => Some((reset_field(acc, key), r)),
                None => None,
            },
        }
    } else if is_bool_key(key) {
        match parse_bool(s) {
            Some(p) => Some((set_bool_field(acc, key, p.0), p.1)),
            None => match scan_value(s) {
                Some(r) => Some((reset_field(acc, key), r)),
                None => None,
            },
        }
    } else {
        match scan_value(s) {
            Some(r) => Some((acc, r)),
            None => None,
        }
    }
}

/// Read members until the closing brace, folding each into `acc`.  The
/// input begins just after the opening brace and must hold at least one
/// member.
pub open spec fn parse_members(s: Seq<char>, acc: ConfView) -> Option<(ConfView, Seq<char>)>
    decreases s.len(),
{
    let s0 = skip_ws(s);
    match parse_string(s0) {
        None => None,
        Some(kp) => {
            let s1 = skip_ws(kp.1);
            if s1.len() == 0 || s1[0] != ':' {
                None
            } else {
                let s2 = skip_ws(s1.skip(1));
                match parse_field_value(kp.0, acc, s2) {
                    None => None,
                    Some(vp) => {
                        let s3 = skip_ws(vp.1);
                        if s3.len() == 0 {
                            None
                        } else if s3[0] == '}' {
                            Some((vp.0, s3.skip(1)))
                        } else if s3[0] == ',' {
                            if s3.skip(1).len() < s.len() {
                                parse_members(s3.skip(1), vp.0)
                            } else {
                                None
                            }
                        } else {
                            None
                        }
                    },
                }
            }
        },
    }
}

/// Read a whole stored document.  A readable document yields a complete
/// configuration; anything else yields nothing and the caller repairs.
pub open spec fn parse_doc(s: Seq<char>) -> Option<ConfView> {
    let s0 = skip_ws(s);
    if s0.len() == 0 || s0[0] != '{' {
        None
    } else {
        let s1 = skip_ws(s0.skip(1));
        if s1.len() > 0 && s1[0] == '}' {
            if skip_ws(s1.skip(1)).len() == 0 {
                Some(ConfView::spec_default())
            } else {
                None
            }
        } else {
            match parse_members(s0.skip(1), ConfView::spec_default()) {
                Some(p) => if skip_ws(p.1).len() == 0 {
                    Some(p.0)
                } else {
                    None
                },
                None => None,
            }
        }
    }
}

/// `acc` with the member `f` carried over from `c`.
pub open spec fn apply_field(f: FieldId, acc: ConfView, c: ConfView) -> ConfView {
    match f {
        FieldId::Theme => ConfView { theme: c.theme, ..acc },
        FieldId::AutoUpdate => ConfView { auto_update: c.auto_update, ..acc },
        FieldId::Tray => ConfView { tray: c.tray, ..acc },
        FieldId::PopupSearch => ConfView { popup_search: c.popup_search, ..acc },
        FieldId::StayOnTop => ConfView { stay_on_top: c.stay_on_top, ..acc },
        FieldId::DefaultOrigin => ConfView { default_origin: c.default_origin, ..acc },
        FieldId::Origin => ConfView { origin: c.origin, ..acc },
        FieldId::UaWindow => ConfView { ua_window: c.ua_window, ..acc },
        FieldId::UaTray => ConfView { ua_tray: c.ua_tray, ..acc },
        FieldId::GlobalShortcut => ConfView { global_shortcut: c.global_shortcut, ..acc },
        FieldId::Titlebar => ConfView { titlebar: c.titlebar, ..acc },
        FieldId::HideDockIcon => ConfView { hide_dock_icon: c.hide_dock_icon, ..acc },
    }
}

/// `acc` with every member of `fs` carried over from `c`, first to last.
pub open spec fn apply_fields(fs: Seq<FieldId>, acc: ConfView, c: ConfView) -> ConfView
    decreases fs.len(),
{
    if fs.len() == 0 {
        acc
    } else {
        apply_fields(fs.skip(1), apply_field(fs[0], acc, c), c)
    }
}

/// A theme's canonical name always names that theme back.
pub proof fn lemma_theme_name_round_trip(t: Theme)
    ensures
        Theme::spec_of_name(t.spec_name()) == t,
{
}

/// Reading one serialized value under its own key folds exactly that field
/// into the accumulator.
#[verifier::rlimit(50)]
proof fn lemma_field_value_step(f: FieldId, c: ConfView, acc: ConfView, tail: Seq<char>)
    ensures
        parse_field_value(field_key(f), acc, field_text(f, c) + tail) == Some(
            (apply_field(f, acc, c), tail),
        ),
{
    reveal(parse_field_value);
    match f {
        FieldId::Theme => {
            lemma_string_round_trip(c.theme.spec_name(), tail);
            lemma_theme_name_round_trip(c.theme);
        },
        FieldId::AutoUpdate => {
            lemma_bool_round_trip(c.auto_update, tail);
        },
        FieldId::Tray => {
            lemma_bool_round_trip(c.tray, tail);
        },
        FieldId::PopupSearch => {
            lemma_bool_round_trip(c.popup_search, tail);
        },
        FieldId::StayOnTop => {
            lemma_bool_round_trip(c.stay_on_top, tail);
            assert(key_stay_on_top() != key_auto_update()) by {
                assert(key_stay_on_top()[0] == 's');
                assert(key_auto_update()[0] == 'a');
            }
        },
        FieldId::DefaultOrigin => {
            lemma_string_round_trip(c.default_origin, tail);
        },
        FieldId::Origin => {
            lemma_string_round_trip(c.origin, tail);
        },
        FieldId::UaWindow => {
            lemma_string_round_trip(c.ua_window, tail);
        },
        FieldId::UaTray => {
            lemma_string_round_trip(c.ua_tray, tail);
        },
        FieldId::GlobalShortcut => {
            lemma_string_round_trip(c.global_shortcut, tail);
        },
        FieldId::Titlebar => {
            lemma_bool_round_trip(c.titlebar, tail);
        },
        FieldId::HideDockIcon => {
            lemma_bool_round_trip(c.hide_dock_icon, tail);
            assert(key_hide_dock_icon() != key_default_origin()) by {
                assert(key_hide_dock_icon()[0] == 'h');
                assert(key_default_origin()[0] == 'd');
            }
        },
    }
}

/// Reading one serialized member folds exactly that field into the
/// accumulator and leaves the rest of the input to the continuation.
#[verifier::rlimit(100)]
proof fn lemma_member_step(f: FieldId, c: ConfView, acc: ConfView, tail: Seq<char>)
    requires
        tail.len() > 0,
        tail[0] == ',' || tail[0] == '}',
    ensures
        parse_members(member_text(f, c) + tail, acc) == (if tail[0] == '}' {
            Some((apply_field(f, acc, c), tail.skip(1)))
        } else {
            parse_members(tail.skip(1), apply_field(f, acc, c))
        }),
{
    let key = field_key(f);
    let vt = field_text(f, c);
    let s = member_text(f, c) + tail;
    let after_key = seq![':'] + (vt + tail);
    assert(s =~= quoted(key) + after_key);
    assert(s.len() > 0 && s[0] == '"');
    lemma_skip_ws_clean(s);
    lemma_string_round_trip(key, after_key);
    assert(after_key[0] == ':');
    lemma_skip_ws_clean(after_key);
    assert(after_key.skip(1) =~= vt + tail);
    assert(vt.len() > 0);
    assert((vt + tail)[0] == vt[0]);
    assert(!is_ws(vt[0]));
    lemma_skip_ws_clean(vt + tail);
    lemma_field_value_step(f, c, acc, tail);
    lemma_skip_ws_clean(tail);
    if tail[0] == ',' {
        assert(tail.skip(1).len() < s.len());
    }
}

/// Reading a serialized member list closed by a brace folds every listed
/// field into the accumulator and consumes the whole input.
proof fn lemma_members_round_trip(fs: Seq<FieldId>, c: ConfView, acc: ConfView)
    requires
        fs.len() > 0,
    ensures
        parse_members(ser_members(fs, c) + seq!['}'], acc) == Some(
            (apply_fields(fs, acc, c), Seq::<char>::empty()),
        ),
    decreases fs.len(),
{
    if fs.len() == 1 {
        lemma_member_step(fs[0], c, acc, seq!['}']);
        assert(seq!['}'].skip(1) =~= Seq::<char>::empty());
        assert(fs.skip(1).len() == 0);
    } else {
        let tail = seq![','] + ser_members(fs.skip(1), c) + seq!['}'];
        assert(ser_members(fs, c) + seq!['}'] =~= member_text(fs[0], c) + tail);
        assert(tail[0] == ',');
        lemma_member_step(fs[0], c, acc, tail);
        assert(tail.skip(1) =~= ser_members(fs.skip(1), c) + seq!['}']);
        lemma_members_round_trip(fs.skip(1), c, apply_field(fs[0], acc, c));
    }
}

/// Carrying every member over from `c` reproduces `c` itself, whatever the
/// accumulator held before.
proof fn lemma_apply_all(acc: ConfView, c: ConfView)
    ensures
        apply_fields(all_fields(), acc, c) == c,
{
    let fs0 = all_fields();
    let fs1 = seq![
        FieldId::AutoUpdate,
        FieldId::Tray,
        FieldId::PopupSearch,
        FieldId::StayOnTop,
        FieldId::DefaultOrigin,
        FieldId::Origin,
        FieldId::UaWindow,
        FieldId::UaTray,
        FieldId::GlobalShortcut,
        FieldId::Titlebar,
        FieldId::HideDockIcon,
    ];
    let fs2 = fs1.skip(1);
    let fs3 = fs2.skip(1);
    let fs4 = fs3.skip(1);
    let fs5 = fs4.skip(1);
    let fs6 = fs5.skip(1);
    let fs7 = fs6.skip(1);
    let fs8 = fs7.skip(1);
    let fs9 = fs8.skip(1);
    let fs10 = fs9.skip(1);
    let fs11 = fs10.skip(1);
    assert(fs0.skip(1) =~= fs1);
    let a0 = apply_field(FieldId::Theme, acc, c);
    let a1 = apply_field(FieldId::AutoUpdate, a0, c);
    let a2 = apply_field(FieldId::Tray, a1, c);
    let a3 = apply_field(FieldId::PopupSearch, a2, c);
    let a4 = apply_field(FieldId::StayOnTop, a3, c);
    let a5 = apply_field(FieldId::DefaultOrigin, a4, c);
    let a6 = apply_field(FieldId::Origin, a5, c);
    let a7 = apply_field(FieldId::UaWindow, a6, c);
    let a8 = apply_field(FieldId::UaTray, a7, c);
    let a9 = apply_field(FieldId::GlobalShortcut, a8, c);
    let a10 = apply_field(FieldId::Titlebar, a9, c);
    let a11 = apply_field(FieldId::HideDockIcon, a10, c);
    assert(apply_fields(fs0, acc, c) == apply_fields(fs1, a0, c));
    assert(apply_fields(fs1, a0, c) == apply_fields(fs2, a1, c));
    assert(apply_fields(fs2, a1, c) == apply_fields(fs3, a2, c));
    assert(apply_fields(fs3, a2, c) == apply_fields(fs4, a3, c));
    assert(apply_fields(fs4, a3, c) == apply_fields(fs5, a4, c));
    assert(apply_fields(fs5, a4, c) == apply_fields(fs6, a5, c));
    assert(apply_fields(fs6, a5, c) == apply_fields(fs7, a6, c));
    assert(apply_fields(fs7, a6, c) == apply_fields(fs8, a7, c));
    assert(apply_fields(fs8, a7, c) == apply_fields(fs9, a8, c));
    assert(apply_fields(fs9, a8, c) == apply_fields(fs10, a9, c));
    assert(apply_fields(fs10, a9, c) == apply_fields(fs11, a10, c));
    let fs12 = fs11.skip(1);
    assert(fs12.len() == 0);
    assert(fs11[0] == FieldId::HideDockIcon);
    assert(apply_fields(fs11, a10, c) == apply_fields(fs12, a11, c));
    assert(apply_fields(fs12, a11, c) == a11);
    assert(a11 =~= c);
}

/// Round trip: reading back a document the writer produced recovers the
/// configuration exactly, field for field.
pub proof fn lemma_doc_round_trip(c: ConfView)
    ensures
        parse_doc(ser_doc(c)) == Some(c),
{
    let s = ser_doc(c);
    let body = ser_members(all_fields(), c);
    assert(s[0] == '{');
    lemma_skip_ws_clean(s);
    assert(s.skip(1) =~= body + seq!['}']);
    assert(all_fields().len() == 12);
    assert(body[0] == '"') by {
        assert(body == member_text(all_fields()[0], c) + seq![','] + ser_members(
            all_fields().skip(1),
            c,
        ));
        assert(member_text(all_fields()[0], c)[0] == '"');
    }
    assert((body + seq!['}'])[0] == '"');
    lemma_skip_ws_clean(body + seq!['}']);
    lemma_members_round_trip(all_fields(), c, ConfView::spec_default());
    lemma_apply_all(ConfView::spec_default(), c);
    assert(skip_ws(Seq::<char>::empty()).len() == 0);
}

/// Append a string value, quoted and escaped.
fn write_quoted(out: &mut String, v: &str)
    ensures
        final(out)@ == old(out)@ + quoted(v@),
{
    push_char(out, '"');
    proof {
        assert(out@ =~= old(out)@ + seq!['"'] + escape_string(v@.take(0)));
    }
    let n = v.unicode_len();
    let mut i: usize = 0;
    while i < n
        invariant
            i <= n,
            n == v@.len(),
            out@ == old(out)@ + seq!['"'] + escape_string(v@.take(i as int)),
        decreases n - i,
    {
        let c = v.get_char(i);
        let ghost pre = out@;
        if c == '"' {
            push_char(out, '\\');
            push_char(out, '"');
        } else if c == '\\' {
            push_char(out, '\\');
            push_char(out, '\\');
        } else if c == '\n' {
            push_char(out, '\\');
            push_char(out, 'n');
        } else if c == '\r' {
            push_char(out, '\\');
            push_char(out, 'r');
        } else if c == '\t' {
            push_char(out, '\\');
            push_char(out, 't');
        } else {
            push_char(out, c);
        }
        proof {
            assert(out@ =~= pre + escape_char(c));
            lemma_escape_string_app(v@.take(i as int), seq![c]);
            assert(v@.take(i as int) + seq![c] =~= v@.take(i as int + 1));
            assert(escape_string(seq![c]) =~= escape_char(c)) by {
                assert(seq![c].skip(1) =~= Seq::<char>::empty());
                assert(escape_string(Seq::<char>::empty()) =~= Seq::<char>::empty());
                assert(seq![c][0] == c);
                assert(escape_string(seq![c]) == escape_char(c) + escape_string(
                    seq![c].skip(1),
                ));
                assert(escape_char(c) + Seq::<char>::empty() =~= escape_char(c));
            }
            assert(out@ =~= old(out)@ + seq!['"'] + escape_string(v@.take(i as int + 1)));
        }
        i += 1;
    }
    proof {
        assert(v@.take(n as int) =~= v@);
    }
    push_char(out, '"');
    proof {
        assert(out@ =~= old(out)@ + quoted(v@));
    }
}

/// Append a boolean value.
fn write_bool(out: &mut String, b: bool)
    ensures
        final(out)@ == old(out)@ + bool_text(b),
{
    if b {
        out.append("true");
        proof {
            reveal_strlit("true");
            assert("true"@ =~= lit_true());
        }
    } else {
        out.append("false");
        proof {
            reveal_strlit("false");
            assert("false"@ =~= lit_false());
        }
    }
}

/// Append one member of the document.
fn write_member(out: &mut String, f: FieldId, c: &ChatConfJson)
    ensures
        final(out)@ == old(out)@ + member_text(f, c@),
{
    match f {
        FieldId::Theme => {
            write_quoted(out, "theme");
            push_char(out, ':');
            write_quoted(out, c.theme.name());
            proof {
                reveal_strlit("theme");
                assert("theme"@ =~= key_theme());
                assert(out@ =~= old(out)@ + member_text(f, c@));
            }
        },
        FieldId::AutoUpdate => {
            write_quoted(out, "auto_update");
            push_char(out, ':');
            write_bool(out, c.auto_update);
            proof {
                reveal_strlit("auto_update");
                assert("auto_update"@ =~= key_auto_update());
                assert(out@ =~= old(out)@ + member_text(f, c@));
            }
        },
        FieldId::Tray => {
            write_quoted(out, "tray");
            push_char(out, ':');
            write_bool(out, c.tray);
            proof {
                reveal_strlit("tray");
                assert("tray"@ =~= key_tray());
                assert(out@ =~= old(out)@ + member_text(f, c@));
            }
        },
        FieldId::PopupSearch => {
            write_quoted(out, "popup_search");
            push_char(out, ':');
            write_bool(out, c.popup_search);
            proof {
                reveal_strlit("popup_search");
                assert("popup_search"@ =~= key_popup_search());
                assert(out@ =~= old(out)@ + member_text(f, c@));
            }
        },
        FieldId::StayOnTop => {
            write_quoted(out, "stay_on_top");
            push_char(out, ':');
            write_bool(out, c.stay_on_top);
            proof {
                reveal_strlit("stay_on_top");
                assert("stay_on_top"@ =~= key_stay_on_top());
                assert(out@ =~= old(out)@ + member_text(f, c@));
            }
        },
        FieldId::DefaultOrigin => {
            write_quoted(out, "default_origin");
            push_char(out, ':');
            write_quoted(out, c.default_origin.as_str());
            proof {
                reveal_strlit("default_origin");
                assert("default_origin"@ =~= key_default_origin());
                assert(out@ =~= old(out)@ + member_text(f, c@));
            }
        },
        FieldId::Origin => {
            write_quoted(out, "origin");
            push_char(out, ':');
            write_quoted(out, c.origin.as_str());
            proof {
                reveal_strlit("origin");
                assert("origin"@ =~= key_origin());
                assert(out@ =~= old(out)@ + member_text(f, c@));
            }
        },
        FieldId::UaWindow => {
            write_quoted(out, "ua_window");
            push_char(out, ':');
            write_quoted(out, c.ua_window.as_str());
            proof {
                reveal_strlit("ua_window");
                assert("ua_window"@ =~= key_ua_window());
                assert(out@ =~= old(out)@ + member_text(f, c@));
            }
        },
        FieldId::UaTray => {
            write_quoted(out, "ua_tray");
            push_char(out, ':');
            write_quoted(out, c.ua_tray.as_str());
            proof {
                reveal_strlit("ua_tray");
                assert("ua_tray"@ =~= key_ua_tray());
                assert(out@ =~= old(out)@ + member_text(f, c@));
            }
        },
        FieldId::GlobalShortcut => {
            write_quoted(out, "global_shortcut");
            push_char(out, ':');
            write_quoted(out, c.global_shortcut.as_str());
            proof {
                reveal_strlit("global_shortcut");
                assert("global_shortcut"@ =~= key_global_shortcut());
                assert(out@ =~= old(out)@ + member_text(f, c@));
            }
        },
        FieldId::Titlebar => {
            write_quoted(out, "titlebar");
            push_char(out, ':');
            write_bool(out, c.titlebar);
            proof {
                reveal_strlit("titlebar");
                assert("titlebar"@ =~= key_titlebar());
                assert(out@ =~= old(out)@ + member_text(f, c@));
            }
        },
        FieldId::HideDockIcon => {
            write_quoted(out, "hide_dock_icon");
            push_char(out, ':');
            write_bool(out, c.hide_dock_icon);
            proof {
                reveal_strlit("hide_dock_icon");
                assert("hide_dock_icon"@ =~= key_hide_dock_icon());
                assert(out@ =~= old(out)@ + member_text(f, c@));
            }
        },
    }
}

/// Append the members listed from index `i` on, separated by commas.
fn write_members(out: &mut String, c: &ChatConfJson, fs: &Vec<FieldId>, i: usize)
    requires
        i < fs@.len(),
    ensures
        final(out)@ == old(out)@ + ser_members(fs@.skip(i as int), c@),
    decreases fs@.len() - i,
{
    let nfields = fs.len();
    let f = fs[i];
    write_member(out, f, c);
    if i + 1 < nfields {
        push_char(out, ',');
        write_members(out, c, fs, i + 1);
        proof {
            assert(fs@.skip(i as int)[0] == fs@[i as int]);
            assert(fs@.skip(i as int).skip(1) =~= fs@.skip(i as int + 1));
            assert(out@ =~= old(out)@ + ser_members(fs@.skip(i as int), c@));
        }
    } else {
        proof {
            assert(fs@.skip(i as int).len() == 1);
            assert(fs@.skip(i as int)[0] == fs@[i as int]);
            assert(out@ =~= old(out)@ + ser_members(fs@.skip(i as int), c@));
        }
    }
}

/// The members in writing order, as a vector.
fn field_order() -> (v: Vec<FieldId>)
    ensures
        v@ == all_fields(),
{
    let v = vec![
        FieldId::Theme,
        FieldId::AutoUpdate,
        FieldId::Tray,
        FieldId::PopupSearch,
        FieldId::StayOnTop,
        FieldId::DefaultOrigin,
        FieldId::Origin,
        FieldId::UaWindow,
        FieldId::UaTray,
        FieldId::GlobalShortcut,
        FieldId::Titlebar,
        FieldId::HideDockIcon,
    ];
    proof {
        assert(v@ =~= all_fields());
    }
    v
}

/// Read one member's value at the cursor, given its key, and fold it into
/// `conf`.
#[verifier::rlimit(100)]
fn parse_field_value_at(s: &Vec<char>, i: usize, key: &str, conf: &mut ChatConfJson) -> (r:
    Option<usize>)
    requires
        i <= s@.len(),
    ensures
        match r {
            Some(j) => {
                &&& i < j <= s@.len()
                &&& parse_field_value(key@, old(conf)@, s@.skip(i as int)) == Some(
                    (final(conf)@, s@.skip(j as int)),
                )
            },
            None => parse_field_value(key@, old(conf)@, s@.skip(i as int)) is None,
        },
{
    proof {
        reveal(parse_field_value);
        reveal_strlit("theme");
        reveal_strlit("auto_update");
        reveal_strlit("tray");
        reveal_strlit("popup_search");
        reveal_strlit("stay_on_top");
        reveal_strlit("default_origin");
        reveal_strlit("origin");
        reveal_strlit("ua_window");
        reveal_strlit("ua_tray");
        reveal_strlit("global_shortcut");
        reveal_strlit("titlebar");
        reveal_strlit("hide_dock_icon");
        assert("theme"@ =~= key_theme());
        assert("auto_update"@ =~= key_auto_update());
        assert("tray"@ =~= key_tray());
        assert("popup_search"@ =~= key_popup_search());
        assert("stay_on_top"@ =~= key_stay_on_top());
        assert("default_origin"@ =~= key_default_origin());
        assert("origin"@ =~= key_origin());
        assert("ua_window"@ =~= key_ua_window());
        assert("ua_tray"@ =~= key_ua_tray());
        assert("global_shortcut"@ =~= key_global_shortcut());
        assert("titlebar"@ =~= key_titlebar());
        assert("hide_dock_icon"@ =~= key_hide_dock_icon());
        assert(key_stay_on_top() != key_auto_update()) by {
            assert(key_stay_on_top()[0] == 's');
            assert(key_auto_update()[0] == 'a');
        }
        assert(key_hide_dock_icon() != key_default_origin()) by {
            assert(key_hide_dock_icon()[0] == 'h');
            assert(key_default_origin()[0] == 'd');
        }
    }
    if str_eq(key, "theme") {
        match parse_string_at(s, i) {
            Some(p) => {
                conf.theme = Theme::of_name(p.0.as_str());
                proof {
                    assert(conf@ =~= set_str_field(old(conf)@, key@, p.0@));
                }
                Some(p.1)
            },
            None => match scan_value_at(s, i) {
                Some(j) => {
                    conf.theme = Theme::System;
                    proof {
                        assert(conf@ =~= reset_field(old(conf)@, key@));
                    }
                    Some(j)
                },
                None => None,
            },
        }
    } else if str_eq(key, "default_origin") {
        match parse_string_at(s, i) {
            Some(p) => {
                conf.default_origin = p.0;
                proof {
                    assert(conf@ =~= set_str_field(old(conf)@, key@, conf.default_origin@));
                }
                Some(p.1)
            },
            None => match scan_value_at(s, i) {
                Some(j) => {
                    conf.default_origin = crate::conf::default_origin_string();
                    proof {
                        assert(conf@ =~= reset_field(old(conf)@, key@));
                    }
                    Some(j)
                },
                None => None,
            },
        }
    } else if str_eq(key, "origin") {
        match parse_string_at(s, i) {
            Some(p) => {
                conf.origin = p.0;
                proof {
                    assert(conf@ =~= set_str_field(old(conf)@, key@, conf.origin@));
                }
                Some(p.1)
            },
            None => match scan_value_at(s, i) {
                Some(j) => {
                    conf.origin = crate::conf::default_origin_string();
                    proof {
                        assert(conf@ =~= reset_field(old(conf)@, key@));
                    }
                    Some(j)
                },
                None => None,
            },
        }
    } else if str_eq(key, "ua_window") {
        match parse_string_at(s, i) {
            Some(p) => {
                conf.ua_window = p.0;
                proof {
                    assert(conf@ =~= set_str_field(old(conf)@, key@, conf.ua_window@));
                }
                Some(p.1)
            },
            None => match scan_value_at(s, i) {
                Some(j) => {
                    conf.ua_window = String::new();
                    proof {
                        assert(conf@ =~= reset_field(old(conf)@, key@));
                    }
                    Some(j)
                },
                None => None,
            },
        }
    } else if str_eq(key, "ua_tray") {
        match parse_string_at(s, i) {
            Some(p) => {
                conf.ua_tray = p.0;
                proof {
                    assert(conf@ =~= set_str_field(old(conf)@, key@, conf.ua_tray@));
                }
                Some(p.1)
            },
            None => match scan_value_at(s, i) {
                Some(j) => {
                    conf.ua_tray = String::new();
                    proof {
                        assert(conf@ =~= reset_field(old(conf)@, key@));
                    }
                    Some(j)
                },
                None => None,
            },
        }
    } else if str_eq(key, "global_shortcut") {
        match parse_string_at(s, i) {
            Some(p) => {
                conf.global_shortcut = p.0;
                proof {
                    assert(conf@ =~= set_str_field(old(conf)@, key@, conf.global_shortcut@));
                }
                Some(p.1)
            },
            None => match scan_value_at(s, i) {
                Some(j) => {
                    conf.global_shortcut = String::new();
                    proof {
                        assert(conf@ =~= reset_field(old(conf)@, key@));
                    }
                    Some(j)
                },
                None => None,
            },
        }
    } else if str_eq(key, "auto_update") {
        match parse_bool_at(s, i) {
            Some(p) => {
                conf.auto_update = p.0;
                proof {
                    assert(conf@ =~= set_bool_field(old(conf)@, key@, p.0));
                }
                Some(p.1)
            },
            None => match scan_value_at(s, i) {
                Some(j) => {
                    conf.auto_update = true;
                    proof {
                        assert(conf@ =~= reset_field(old(conf)@, key@));
                    }
                    Some(j)
                },
                None => None,
            },
        }
    } else if str_eq(key, "tray") {
        match parse_bool_at(s, i) {
            Some(p) => {
                conf.tray = p.0;
                proof {
                    assert(conf@ =~= set_bool_field(old(conf)@, key@, p.0));
                }
                Some(p.1)
            },
            None => match scan_value_at(s, i) {
                Some(j) => {
                    conf.tray = true;
                    proof {
                        assert(conf@ =~= reset_field(old(conf)@, key@));
                    }
                    Some(j)
                },
                None => None,
            },
        }
    } else if str_eq(key, "popup_search") {
        match parse_bool_at(s, i) {
            Some(p) => {
                conf.popup_search = p.0;
                proof {
                    assert(conf@ =~= set_bool_field(old(conf)@, key@, p.0));
                }
                Some(p.1)
            },
            None => match scan_value_at(s, i) {
                Some(j) => {
                    conf.popup_search = false;
                    proof {
                        assert(conf@ =~= reset_field(old(conf)@, key@));
                    }
                    Some(j)
                },
                None => None,
            },
        }
    } else if str_eq(key, "stay_on_top") {
        match parse_bool_at(s, i) {
            Some(p) => {
                conf.stay_on_top = p.0;
                proof {
                    assert(conf@ =~= set_bool_field(old(conf)@, key@, p.0));
                }
                Some(p.1)
            },
            None => match scan_value_at(s, i) {
                Some(j) => {
                    conf.stay_on_top = false;
                    proof {
                        assert(conf@ =~= reset_field(old(conf)@, key@));
                    }
                    Some(j)
                },
                None => None,
            },
        }
    } else if str_eq(key, "titlebar") {
        match parse_bool_at(s, i) {
            Some(p) => {
                conf.titlebar = p.0;
                proof {
                    assert(conf@ =~= set_bool_field(old(conf)@, key@, p.0));
                }
                Some(p.1)
            },
            None => match scan_value_at(s, i) {
                Some(j) => {
                    conf.titlebar = false;
                    proof {
                        assert(conf@ =~= reset_field(old(conf)@, key@));
                    }
                    Some(j)
                },
                None => None,
            },
        }
    } else if str_eq(key, "hide_dock_icon") {
        match parse_bool_at(s, i) {
            Some(p) => {
                conf.hide_dock_icon = p.0;
                proof {
                    assert(conf@ =~= set_bool_field(old(conf)@, key@, p.0));
                }
                Some(p.1)
            },
            None => match scan_value_at(s, i) {
                Some(j) => {
                    conf.hide_dock_icon = false;
                    proof {
                        assert(conf@ =~= reset_field(old(conf)@, key@));
                    }
                    Some(j)
                },
                None => None,
            },
        }
    } else {
        match scan_value_at(s, i) {
            Some(j) => Some(j),
            None => None,
        }
    }
}

/// Read members until the closing brace, folding each into `conf`.  Holds
/// no promise about `conf` when it fails: the caller repairs with the
/// default document.
fn parse_members_at(s: &Vec<char>, i: usize, conf: &mut ChatConfJson) -> (r: Option<usize>)
    requires
        i <= s@.len(),
    ensures
        match r {
            Some(j) => {
                &&& j <= s@.len()
                &&& parse_members(s@.skip(i as int), old(conf)@) == Some(
                    (final(conf)@, s@.skip(j as int)),
                )
            },
            None => parse_members(s@.skip(i as int), old(conf)@) is None,
        },
{
    let n = s.len();
    let mut k = i;
    loop
        invariant
            i <= k <= n,
            n == s@.len(),
            parse_members(s@.skip(i as int), old(conf)@) == parse_members(
                s@.skip(k as int),
                conf@,
            ),
        decreases n - k,
    {
        let k0 = skip_ws_at(s, k);
        match parse_string_at(s, k0) {
            None => {
                return None;
            },
            Some(kp) => {
                let (key, k1r) = kp;
                let k1 = skip_ws_at(s, k1r);
                if k1 == n {
                    return None;
                }
                if s[k1] != ':' {
                    return None;
                }
                proof {
                    assert(s@.skip(k1 as int).skip(1) =~= s@.skip(k1 as int + 1));
                }
                let k2 = skip_ws_at(s, k1 + 1);
                match parse_field_value_at(s, k2, key.as_str(), conf) {
                    None => {
                        return None;
                    },
                    Some(k3) => {
                        let k4 = skip_ws_at(s, k3);
                        if k4 == n {
                            return None;
                        }
                        let c = s[k4];
                        if c == '}' {
                            proof {
                                assert(s@.skip(k4 as int).skip(1) =~= s@.skip(k4 as int + 1));
                            }
                            return Some(k4 + 1);
                        } else if c == ',' {
                            proof {
                                assert(s@.skip(k4 as int).skip(1) =~= s@.skip(k4 as int + 1));
                            }
                            k = k4 + 1;
                        } else {
                            return None;
                        }
                    },
                }
            },
        }
    }
}

impl ChatConfJson {
    /// The document as its canonical JSON text.
    pub fn save(&self) -> (out: String)
        ensures
            out@ == ser_doc(self@),
    {
        let fields = field_order();
        let mut out = String::new();
        push_char(&mut out, '{');
        write_members(&mut out, self, &fields, 0);
        push_char(&mut out, '}');
        proof {
            assert(all_fields().skip(0) =~= all_fields());
            assert(out@ =~= seq!['{'] + ser_members(all_fields(), self@) + seq!['}']);
        }
        out
    }

    /// Read a stored document; yields nothing when the text is not one
    /// readable JSON object.
    #[verifier::rlimit(50)]
    pub fn from_json(text: &str) -> (r: Option<ChatConfJson>)
        ensures
            match r {
                Some(c) => parse_doc(text@) == Some(c@),
                None => parse_doc(text@) is None,
            },
    {
        let v = str_to_chars(text);
        let n = v.len();
        proof {
            assert(v@.skip(0) =~= v@);
        }
        let s0 = skip_ws_at(&v, 0);
        if s0 == n {
            return None;
        }
        if v[s0] != '{' {
            return None;
        }
        proof {
            assert(v@.skip(s0 as int).skip(1) =~= v@.skip(s0 as int + 1));
        }
        let s1 = skip_ws_at(&v, s0 + 1);
        if s1 < n && v[s1] == '}' {
            proof {
                assert(v@.skip(s1 as int).skip(1) =~= v@.skip(s1 as int + 1));
            }
            let s2 = skip_ws_at(&v, s1 + 1);
            if s2 == n {
                return Some(ChatConfJson::default());
            } else {
                return None;
            }
        }
        let mut conf = ChatConfJson::default();
        match parse_members_at(&v, s0 + 1, &mut conf) {
            Some(j) => {
                let s2 = skip_ws_at(&v, j);
                if s2 == n {
                    Some(conf)
                } else {
                    None
                }
            },
            None => None,
        }
    }

    /// Repair-on-read: the stored text where it is readable, the default
    /// document otherwise.  The flag says the caller must write the
    /// returned document back, because the file was missing or unreadable.
    pub fn load(disk: Option<&str>) -> (r: (ChatConfJson, bool))
        ensures
            match disk {
                Some(t) => match parse_doc(t@) {
                    Some(v) => r.0@ == v && !r.1,
                    None => r.0@ == ConfView::spec_default() && r.1,
                },
                None => r.0@ == ConfView::spec_default() && r.1,
            },
    {
        match disk {
            Some(t) => match ChatConfJson::from_json(t) {
                Some(c) => (c, false),
                None => (ChatConfJson::default(), true),
            },
            None => (ChatConfJson::default(), true),
        }
    }

    /// The default document, as restored by an explicit reset.
    pub fn reset_to_defaults() -> (c: ChatConfJson)
        ensures
            c@ == ConfView::spec_default(),
    {
        ChatConfJson::default()
    }
}

} // verus!
