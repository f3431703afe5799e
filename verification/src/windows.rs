//! The window registry: the set of live top-level windows, keyed by label,
//! with at most one live window per label.
//!
//! Every creation request funnels through `ensure_or_focus`, so every
//! caller observes the same singleton behaviour: a missing window is
//! created visible and focused, an existing one is shown and focused, and
//! focus always rests on exactly the window that was asked for.

use vstd::prelude::*;
use crate::json::str_eq;
use crate::theme::Theme;

verus! {

/// Where a window's content comes from: a bundled route or an external URL.
#[derive(Clone, Debug, PartialEq, Eq)]
pub enum ContentSource {
    App(String),
    External(String),
}

/// Mathematical view of a content source.
pub enum SourceView {
    App(Seq<char>),
    External(Seq<char>),
}

impl View for ContentSource {
    type V = SourceView;

    open spec fn view(&self) -> SourceView {
        match self {
            ContentSource::App(s) => SourceView::App(s@),
            ContentSource::External(s) => SourceView::External(s@),
        }
    }
}

/// One live top-level window.
#[derive(Debug, PartialEq, Eq)]
pub struct WindowHandle {
    pub label: String,
    pub source: ContentSource,
    pub visible: bool,
    pub focused: bool,
    pub always_on_top: bool,
    pub theme: Theme,
}

/// Mathematical view of a window.
#[verifier::ext_equal]
pub struct WindowView {
    pub label: Seq<char>,
    pub source: SourceView,
    pub visible: bool,
    pub focused: bool,
    pub always_on_top: bool,
    pub theme: Theme,
}

impl View for WindowHandle {
    type V = WindowView;

    open spec fn view(&self) -> WindowView {
        WindowView {
            label: self.label@,
            source: self.source@,
            visible: self.visible,
            focused: self.focused,
            always_on_top: self.always_on_top,
            theme: self.theme,
        }
    }
}

/// The label of the primary content window.
pub open spec fn label_core() -> Seq<char> {
    seq!['c', 'o', 'r', 'e']
}

/// The label of the settings window.
pub open spec fn label_config() -> Seq<char> {
    seq!['c', 'o', 'n', 'f', 'i', 'g']
}

/// The primary window's label as a string slice.
pub fn core_label() -> (r: &'static str)
    ensures
        r@ == label_core(),
{
    let r = "core";
    proof {
        reveal_strlit("core");
        assert(r@ =~= label_core());
    }
    r
}

/// The settings window's label as a string slice.
pub fn config_label() -> (r: &'static str)
    ensures
        r@ == label_config(),
{
    let r = "config";
    proof {
        reveal_strlit("config");
        assert(r@ =~= label_config());
    }
    r
}

/// The first index holding a window with this label, or -1.
pub open spec fn find_index(ws: Seq<WindowView>, label: Seq<char>) -> int
    decreases ws.len(),
{
    if ws.len() == 0 {
        -1
    } else if ws[0].label == label {
        0
    } else {
        let r = find_index(ws.skip(1), label);
        if r == -1 {
            -1
        } else {
            r + 1
        }
    }
}

/// No two windows share a label.
pub open spec fn distinct_labels(ws: Seq<WindowView>) -> bool {
    forall|i: int, j: int| #![auto] 0 <= i < j < ws.len() ==> ws[i].label != ws[j].label
}

/// How many windows carry this label.
pub open spec fn count_label(ws: Seq<WindowView>, label: Seq<char>) -> int
    decreases ws.len(),
{
    if ws.len() == 0 {
        0
    } else {
        (if ws[0].label == label {
            1int
        } else {
            0int
        }) + count_label(ws.skip(1), label)
    }
}

/// What `find_index` returns is the first match, and a match exists
/// exactly when the result is not -1.
pub proof fn lemma_find_index_props(ws: Seq<WindowView>, label: Seq<char>)
    ensures
        -1 <= find_index(ws, label) < ws.len(),
        find_index(ws, label) >= 0 ==> ws[find_index(ws, label)].label == label,
        find_index(ws, label) >= 0 ==> forall|k: int| #![auto]
            0 <= k < find_index(ws, label) ==> ws[k].label != label,
        find_index(ws, label) == -1 ==> forall|k: int| #![auto]
            0 <= k < ws.len() ==> ws[k].label != label,
    decreases ws.len(),
{
    if ws.len() == 0 {
    } else if ws[0].label == label {
    } else {
        lemma_find_index_props(ws.skip(1), label);
        assert(forall|k: int| #![auto] 1 <= k < ws.len() ==> ws[k] == ws.skip(1)[k - 1]);
    }
}

/// If the first `i` windows miss the label and window `i` (when there is
/// one) carries it, `find_index` answers `i` (or -1 at the end).
pub proof fn lemma_find_index_at(ws: Seq<WindowView>, label: Seq<char>, i: int)
    requires
        0 <= i <= ws.len(),
        forall|k: int| #![auto] 0 <= k < i ==> ws[k].label != label,
        i < ws.len() ==> ws[i].label == label,
    ensures
        i < ws.len() ==> find_index(ws, label) == i,
        i == ws.len() ==> find_index(ws, label) == -1,
    decreases ws.len(),
{
    if ws.len() == 0 {
    } else if ws[0].label == label {
        assert(i == 0);
    } else {
        lemma_find_index_at(ws.skip(1), label, i - 1);
    }
}

/// Where all labels agree pointwise, the counts agree.
proof fn lemma_count_same_labels(a: Seq<WindowView>, b: Seq<WindowView>, label: Seq<char>)
    requires
        a.len() == b.len(),
        forall|k: int| #![auto] 0 <= k < a.len() ==> a[k].label == b[k].label,
    ensures
        count_label(a, label) == count_label(b, label),
    decreases a.len(),
{
    if a.len() > 0 {
        lemma_count_same_labels(a.skip(1), b.skip(1), label);
    }
}

/// Counting distributes over concatenation.
proof fn lemma_count_app(a: Seq<WindowView>, b: Seq<WindowView>, label: Seq<char>)
    ensures
        count_label(a + b, label) == count_label(a, label) + count_label(b, label),
    decreases a.len(),
{
    if a.len() == 0 {
        assert(a + b =~= b);
    } else {
        assert((a + b)[0] == a[0]);
        assert((a + b).skip(1) =~= a.skip(1) + b);
        lemma_count_app(a.skip(1), b, label);
    }
}

/// With distinct labels, a label found once is counted once, and a label
/// not found is counted zero times.
pub proof fn lemma_count_of_find(ws: Seq<WindowView>, label: Seq<char>)
    requires
        distinct_labels(ws),
    ensures
        find_index(ws, label) >= 0 ==> count_label(ws, label) == 1,
        find_index(ws, label) == -1 ==> count_label(ws, label) == 0,
    decreases ws.len(),
{
    if ws.len() == 0 {
    } else {
        assert(forall|k: int| #![auto] 0 <= k < ws.skip(1).len() ==> ws.skip(1)[k] == ws[k + 1]);
        assert(distinct_labels(ws.skip(1)));
        lemma_count_of_find(ws.skip(1), label);
        if ws[0].label == label {
            lemma_find_index_props(ws.skip(1), label);
            if find_index(ws.skip(1), label) >= 0 {
                let r = find_index(ws.skip(1), label);
                assert(ws[0].label != ws[r + 1].label);
            }
        } else {
            lemma_find_index_props(ws.skip(1), label);
            assert(find_index(ws, label) == -1 ==> find_index(ws.skip(1), label) == -1);
            assert(count_label(ws, label) == count_label(ws.skip(1), label));
        }
    }
}

/// The window a fresh creation yields: visible, focused, with defaults.
pub open spec fn new_window(label: Seq<char>, source: SourceView) -> WindowView {
    WindowView {
        label: label,
        source: source,
        visible: true,
        focused: true,
        always_on_top: false,
        theme: Theme::System,
    }
}

/// Focus resting on window `idx` alone; `idx == -1` leaves every window
/// unfocused.  The focused window is also made visible.
pub open spec fn focus_only(ws: Seq<WindowView>, idx: int) -> Seq<WindowView> {
    Seq::new(
        ws.len(),
        |k: int|
            if k == idx {
                WindowView { visible: true, focused: true, ..ws[k] }
            } else {
                WindowView { focused: false, ..ws[k] }
            },
    )
}

/// The registry after a create-or-focus request: an existing window is
/// shown and focused (the source argument is ignored), a missing one is
/// appended visible and focused.  Either way no other window keeps focus.
pub open spec fn spec_ensure(ws: Seq<WindowView>, label: Seq<char>, source: SourceView) -> Seq<
    WindowView,
> {
    let i = find_index(ws, label);
    if i >= 0 {
        focus_only(ws, i)
    } else {
        focus_only(ws, -1).push(new_window(label, source))
    }
}

/// A window hidden: no longer visible, no longer focused.
pub open spec fn hidden_view(w: WindowView) -> WindowView {
    WindowView { visible: false, focused: false, ..w }
}

/// Every window carrying this theme.
pub open spec fn spec_set_theme(ws: Seq<WindowView>, t: Theme) -> Seq<WindowView> {
    Seq::new(ws.len(), |k: int| WindowView { theme: t, ..ws[k] })
}

/// The theme of the primary window, or follow-the-system when it is not
/// live.
pub open spec fn spec_core_theme(ws: Seq<WindowView>) -> Theme {
    let i = find_index(ws, label_core());
    if i >= 0 {
        ws[i].theme
    } else {
        Theme::System
    }
}

/// What a create-or-focus request reported.
#[derive(Clone, Copy, Debug, PartialEq, Eq, Structural)]
pub enum EnsureOutcome {
    Created,
    Focused,
}

/// What a close request did.
#[derive(Clone, Copy, Debug, PartialEq, Eq, Structural)]
pub enum CloseOutcome {
    Hidden,
    Destroyed,
    Absent,
}

/// The registry of live windows.  The label-to-window table is process
/// wide, so all writes funnel through these methods and the registry owns
/// every handle.
pub struct WindowRegistry {
    windows: Vec<WindowHandle>,
    preserve_core: bool,
}

impl View for WindowRegistry {
    type V = Seq<WindowView>;

    closed spec fn view(&self) -> Seq<WindowView> {
        self.windows@.map_values(|w: WindowHandle| w@)
    }
}

impl WindowRegistry {
    /// The one registry invariant: labels are unique.
    pub open spec fn wf(self) -> bool {
        distinct_labels(self@)
    }

    /// Whether closing the primary window hides it instead of destroying
    /// it (the policy on platforms that stay resident in the tray).
    pub closed spec fn preserves_core(self) -> bool {
        self.preserve_core
    }

    /// An empty registry with the given close policy for the primary
    /// window.
    pub fn new(preserve_core: bool) -> (r: WindowRegistry)
        ensures
            r@ == Seq::<WindowView>::empty(),
            r.wf(),
            r.preserves_core() == preserve_core,
    {
        let r = WindowRegistry { windows: Vec::new(), preserve_core };
        proof {
            assert(r@ =~= Seq::<WindowView>::empty());
        }
        r
    }

    /// How many windows are live.
    pub fn len(&self) -> (n: usize)
        ensures
            n == self@.len(),
    {
        self.windows.len()
    }

    /// The window at an index, for walking every live window.
    pub fn get_at(&self, i: usize) -> (w: &WindowHandle)
        requires
            i < self@.len(),
        ensures
            w@ == self@[i as int],
    {
        &self.windows[i]
    }

    /// The index of the window with this label.
    fn position(&self, label: &str) -> (r: Option<usize>)
        ensures
            match r {
                Some(i) => i < self@.len() && find_index(self@, label@) == i,
                None => find_index(self@, label@) == -1,
            },
    {
        let n = self.windows.len();
        let mut i: usize = 0;
        while i < n
            invariant
                i <= n,
                n == self.windows@.len(),
                self@.len() == n,
                forall|k: int| #![auto] 0 <= k < i ==> self@[k].label != label@,
            decreases n - i,
        {
            if str_eq(self.windows[i].label.as_str(), label) {
                proof {
                    assert(self@[i as int].label == label@);
                    lemma_find_index_at(self@, label@, i as int);
                }
                return Some(i);
            }
            proof {
                assert(self@[i as int].label != label@);
            }
            i += 1;
        }
        proof {
            lemma_find_index_at(self@, label@, n as int);
        }
        None
    }

    /// Lookup only; no side effects.
    pub fn get(&self, label: &str) -> (r: Option<&WindowHandle>)
        ensures
            match r {
                Some(w) => {
                    &&& find_index(self@, label@) >= 0
                    &&& w@ == self@[find_index(self@, label@)]
                },
                None => find_index(self@, label@) == -1,
            },
    {
        match self.position(label) {
            Some(i) => Some(&self.windows[i]),
            None => None,
        }
    }

    /// Take focus off every window.
    fn unfocus_all(&mut self)
        ensures
            final(self)@ == focus_only(old(self)@, -1),
            final(self).preserves_core() == old(self).preserves_core(),
    {
        let n = self.windows.len();
        let mut i: usize = 0;
        while i < n
            invariant
                i <= n,
                n == self.windows@.len(),
                n == old(self).windows@.len(),
                self.preserve_core == old(self).preserve_core,
                forall|k: int| #![auto]
                    0 <= k < i ==> self.windows@[k]@ == (WindowView {
                        focused: false,
                        ..old(self)@[k]
                    }),
                forall|k: int| #![auto] i <= k < n ==> self.windows@[k] == old(self).windows@[k],
            decreases n - i,
        {
            proof {
                assert(old(self)@.len() == n);
                assert(old(self)@[i as int] == old(self).windows@[i as int]@);
            }
            self.windows[i].focused = false;
            i += 1;
        }
        proof {
            assert(old(self)@.len() == n);
            assert(self@.len() == n);
            assert(self@ =~= focus_only(old(self)@, -1));
        }
    }

    /// Create-or-focus: if no live window carries the label, create one
    /// pointed at `source`, visible and focused; otherwise show and focus
    /// the existing one, ignoring `source`.  Focus leaves every other
    /// window.  When this reports `Created`, the unverified driver builds
    /// the real window; if the operating system refuses, the driver calls
    /// `close` to take the entry back out, and the failure surfaces as a
    /// no-op.
    pub fn ensure_or_focus(&mut self, label: &str, source: ContentSource) -> (r: EnsureOutcome)
        requires
            old(self).wf(),
        ensures
            final(self).wf(),
            final(self)@ == spec_ensure(old(self)@, label@, source@),
            r == EnsureOutcome::Created <==> find_index(old(self)@, label@) == -1,
            find_index(final(self)@, label@) >= 0,
            final(self).preserves_core() == old(self).preserves_core(),
    {
        proof {
            lemma_find_index_props(old(self)@, label@);
        }
        let pos = self.position(label);
        self.unfocus_all();
        match pos {
            Some(i) => {
                let ghost base = self@;
                proof {
                    assert(base.len() == old(self)@.len());
                    assert(self.windows@.len() == self@.len());
                    assert(self.windows@[i as int]@ == self@[i as int]);
                }
                self.windows[i].visible = true;
                self.windows[i].focused = true;
                proof {
                    let shown = WindowView { visible: true, focused: true, ..base[i as int] };
                    assert(self@ =~= base.update(i as int, shown));
                    assert(base.update(i as int, shown) =~= focus_only(old(self)@, i as int));
                    assert(forall|k: int| #![auto]
                        0 <= k < self@.len() ==> self@[k].label == old(self)@[k].label);
                    lemma_find_index_at(
                        self@,
                        label@,
                        find_index(old(self)@, label@),
                    );
                }
                EnsureOutcome::Focused
            },
            None => {
                let w = WindowHandle {
                    label: <String as vstd::string::StringExecFns>::from_str(label),
                    source,
                    visible: true,
                    focused: true,
                    always_on_top: false,
                    theme: Theme::System,
                };
                self.windows.push(w);
                proof {
                    let base = focus_only(old(self)@, -1);
                    assert(base.len() == old(self)@.len());
                    assert(self@.len() == base.len() + 1);
                    assert(self@ =~= base.push(new_window(label@, source@)));
                    assert(forall|k: int| #![auto]
                        0 <= k < base.len() ==> self@[k].label == old(self)@[k].label);
                    assert(forall|k: int| #![auto]
                        0 <= k < base.len() ==> self@[k].label != label@);
                    lemma_find_index_at(self@, label@, base.len() as int);
                    assert(self@[base.len() as int].label == label@);
                }
                EnsureOutcome::Created
            },
        }
    }

    /// Show and focus the window with this label, if it is live; for tray
    /// activation.  No window is created.
    pub fn show_focus(&mut self, label: &str) -> (found: bool)
        requires
            old(self).wf(),
        ensures
            final(self).wf(),
            found <==> find_index(old(self)@, label@) >= 0,
            found ==> final(self)@ == focus_only(old(self)@, find_index(old(self)@, label@)),
            !found ==> final(self)@ == old(self)@,
            final(self).preserves_core() == old(self).preserves_core(),
    {
        proof {
            lemma_find_index_props(old(self)@, label@);
        }
        let pos = self.position(label);
        match pos {
            Some(i) => {
                self.unfocus_all();
                let ghost base = self@;
                proof {
                    assert(base.len() == old(self)@.len());
                    assert(self.windows@.len() == self@.len());
                    assert(self.windows@[i as int]@ == self@[i as int]);
                }
                self.windows[i].visible = true;
                self.windows[i].focused = true;
                proof {
                    let shown = WindowView { visible: true, focused: true, ..base[i as int] };
                    assert(self@ =~= base.update(i as int, shown));
                    assert(base.update(i as int, shown) =~= focus_only(old(self)@, i as int));
                    assert(forall|k: int| #![auto]
                        0 <= k < self@.len() ==> self@[k].label == old(self)@[k].label);
                }
                true
            },
            None => false,
        }
    }

    /// Hide the window with this label: it stays live but loses
    /// visibility and focus.
    pub fn hide_window(&mut self, label: &str) -> (found: bool)
        requires
            old(self).wf(),
        ensures
            final(self).wf(),
            found <==> find_index(old(self)@, label@) >= 0,
            found ==> final(self)@ == old(self)@.update(
                find_index(old(self)@, label@),
                hidden_view(old(self)@[find_index(old(self)@, label@)]),
            ),
            !found ==> final(self)@ == old(self)@,
            final(self).preserves_core() == old(self).preserves_core(),
    {
        proof {
            lemma_find_index_props(old(self)@, label@);
        }
        match self.position(label) {
            Some(i) => {
                proof {
                    assert(self.windows@.len() == self@.len());
                    assert(self.windows@[i as int]@ == self@[i as int]);
                }
                self.windows[i].visible = false;
                self.windows[i].focused = false;
                proof {
                    assert(self@.len() == old(self)@.len());
                    assert(self@ =~= old(self)@.update(
                        i as int,
                        hidden_view(old(self)@[i as int]),
                    ));
                    assert(forall|k: int| #![auto]
                        0 <= k < self@.len() ==> self@[k].label == old(self)@[k].label);
                }
                true
            },
            None => false,
        }
    }

    /// Explicit close.  The primary window is special-cased: where the
    /// registry's policy keeps the application resident, closing the
    /// primary window hides it instead of destroying it.  Closing an
    /// absent label is a no-op.
    pub fn close(&mut self, label: &str) -> (r: CloseOutcome)
        requires
            old(self).wf(),
        ensures
            final(self).wf(),
            ({
                let i = find_index(old(self)@, label@);
                if i == -1 {
                    r == CloseOutcome::Absent && final(self)@ == old(self)@
                } else if label@ == label_core() && old(self).preserves_core() {
                    r == CloseOutcome::Hidden && final(self)@ == old(self)@.update(
                        i,
                        hidden_view(old(self)@[i]),
                    )
                } else {
                    r == CloseOutcome::Destroyed && final(self)@ == old(self)@.remove(i)
                }
            }),
            final(self).preserves_core() == old(self).preserves_core(),
    {
        proof {
            lemma_find_index_props(old(self)@, label@);
            reveal_strlit("core");
            assert("core"@ =~= label_core());
        }
        let is_core = str_eq(label, "core");
        match self.position(label) {
            Some(i) => {
                if is_core && self.preserve_core {
                    proof {
                        assert(self.windows@.len() == self@.len());
                        assert(self.windows@[i as int]@ == self@[i as int]);
                    }
                    self.windows[i].visible = false;
                    self.windows[i].focused = false;
                    proof {
                        assert(self@.len() == old(self)@.len());
                        assert(self@ =~= old(self)@.update(
                            i as int,
                            hidden_view(old(self)@[i as int]),
                        ));
                        assert(forall|k: int| #![auto]
                            0 <= k < self@.len() ==> self@[k].label == old(self)@[k].label);
                    }
                    CloseOutcome::Hidden
                } else {
                    proof {
                        assert(self.windows@.len() == self@.len());
                    }
                    self.windows.remove(i);
                    proof {
                        assert(self@ =~= old(self)@.remove(i as int));
                        assert forall|a: int, b: int|
                            0 <= a < b < self@.len() implies self@[a].label != self@[b].label by {
                            let oa = if a < i as int {
                                a
                            } else {
                                a + 1
                            };
                            let ob = if b < i as int {
                                b
                            } else {
                                b + 1
                            };
                            assert(self@[a] == old(self)@[oa]);
                            assert(self@[b] == old(self)@[ob]);
                        }
                    }
                    CloseOutcome::Destroyed
                }
            },
            None => CloseOutcome::Absent,
        }
    }

    /// Set the chrome theme on every live window; nothing else changes.
    pub fn set_theme_all(&mut self, t: Theme)
        requires
            old(self).wf(),
        ensures
            final(self).wf(),
            final(self)@ == spec_set_theme(old(self)@, t),
            final(self).preserves_core() == old(self).preserves_core(),
    {
        let n = self.windows.len();
        let mut i: usize = 0;
        while i < n
            invariant
                i <= n,
                n == self.windows@.len(),
                n == old(self).windows@.len(),
                self.preserve_core == old(self).preserve_core,
                forall|k: int| #![auto]
                    0 <= k < i ==> self.windows@[k]@ == (WindowView {
                        theme: t,
                        ..old(self)@[k]
                    }),
                forall|k: int| #![auto] i <= k < n ==> self.windows@[k] == old(self).windows@[k],
            decreases n - i,
        {
            proof {
                assert(old(self)@.len() == n);
                assert(old(self)@[i as int] == old(self).windows@[i as int]@);
            }
            self.windows[i].theme = t;
            i += 1;
        }
        proof {
            assert(old(self)@.len() == n);
            assert(self@.len() == n);
            assert(self@ =~= spec_set_theme(old(self)@, t));
            assert(forall|k: int| #![auto]
                0 <= k < self@.len() ==> self@[k].label == old(self)@[k].label);
        }
    }

    /// Flip whether the window with this label stays above the others;
    /// answers the new setting, or nothing when the label is not live.
    pub fn toggle_on_top(&mut self, label: &str) -> (r: Option<bool>)
        requires
            old(self).wf(),
        ensures
            final(self).wf(),
            ({
                let i = find_index(old(self)@, label@);
                match r {
                    Some(v) => {
                        &&& i >= 0
                        &&& v == !old(self)@[i].always_on_top
                        &&& final(self)@ == old(self)@.update(
                            i,
                            WindowView { always_on_top: v, ..old(self)@[i] },
                        )
                    },
                    None => i == -1 && final(self)@ == old(self)@,
                }
            }),
            final(self).preserves_core() == old(self).preserves_core(),
    {
        proof {
            lemma_find_index_props(old(self)@, label@);
        }
        match self.position(label) {
            Some(i) => {
                proof {
                    assert(self.windows@.len() == self@.len());
                    assert(self.windows@[i as int]@ == self@[i as int]);
                }
                let v = !self.windows[i].always_on_top;
                self.windows[i].always_on_top = v;
                proof {
                    assert(self@.len() == old(self)@.len());
                    assert(self@ =~= old(self)@.update(
                        i as int,
                        WindowView { always_on_top: v, ..old(self)@[i as int] },
                    ));
                    assert(forall|k: int| #![auto]
                        0 <= k < self@.len() ==> self@[k].label == old(self)@[k].label);
                }
                Some(v)
            },
            None => None,
        }
    }
}

/// One create-or-focus call leaves exactly one live window for the label.
pub proof fn lemma_ensure_singleton(ws: Seq<WindowView>, label: Seq<char>, source: SourceView)
    requires
        distinct_labels(ws),
    ensures
        count_label(spec_ensure(ws, label, source), label) == 1,
        distinct_labels(spec_ensure(ws, label, source)),
    decreases ws.len(),
{
    lemma_find_index_props(ws, label);
    let i = find_index(ws, label);
    let r = spec_ensure(ws, label, source);
    if i >= 0 {
        assert(r.len() == ws.len());
        assert(forall|k: int| #![auto] 0 <= k < r.len() ==> r[k].label == ws[k].label);
        lemma_count_same_labels(r, ws, label);
        lemma_count_of_find(ws, label);
        assert(distinct_labels(r));
    } else {
        let base = focus_only(ws, -1);
        assert(forall|k: int| #![auto] 0 <= k < ws.len() ==> base[k].label == ws[k].label);
        lemma_count_same_labels(base, ws, label);
        lemma_count_of_find(ws, label);
        assert(r =~= base + seq![new_window(label, source)]);
        lemma_count_app(base, seq![new_window(label, source)], label);
        assert(count_label(seq![new_window(label, source)], label) == 1) by {
            assert(seq![new_window(label, source)][0] == new_window(label, source));
            assert(seq![new_window(label, source)].skip(1) =~= Seq::<WindowView>::empty());
            assert(count_label(Seq::<WindowView>::empty(), label) == 0);
        }
        assert(distinct_labels(r));
    }
}

/// After a create-or-focus request the requested window is live, visible
/// and focused, and focus rests on it alone.
pub proof fn lemma_ensure_focuses(ws: Seq<WindowView>, label: Seq<char>, source: SourceView)
    requires
        distinct_labels(ws),
    ensures
        ({
            let r = spec_ensure(ws, label, source);
            let i = find_index(r, label);
            &&& i >= 0
            &&& r[i].visible
            &&& r[i].focused
            &&& forall|k: int| #![auto] 0 <= k < r.len() && k != i ==> !r[k].focused
        }),
{
    lemma_find_index_props(ws, label);
    let i0 = find_index(ws, label);
    let r = spec_ensure(ws, label, source);
    if i0 >= 0 {
        assert(forall|k: int| #![auto] 0 <= k < r.len() ==> r[k].label == ws[k].label);
        lemma_find_index_at(r, label, i0);
    } else {
        let base = focus_only(ws, -1);
        assert(forall|k: int| #![auto] 0 <= k < base.len() ==> r[k].label == ws[k].label);
        assert(forall|k: int| #![auto] 0 <= k < base.len() ==> r[k].label != label);
        assert(r[base.len() as int].label == label);
        lemma_find_index_at(r, label, base.len() as int);
    }
}

/// Create-or-focus twice in a row still leaves exactly one live window
/// for the label (idempotence of the singleton guarantee).
pub proof fn lemma_ensure_idempotent(
    ws: Seq<WindowView>,
    label: Seq<char>,
    s1: SourceView,
    s2: SourceView,
)
    requires
        distinct_labels(ws),
    ensures
        count_label(spec_ensure(spec_ensure(ws, label, s1), label, s2), label) == 1,
{
    lemma_ensure_singleton(ws, label, s1);
    lemma_ensure_singleton(spec_ensure(ws, label, s1), label, s2);
}

} // verus!
