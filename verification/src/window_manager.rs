//! The window registry and lifecycle coordinator: which windows are open,
//! one per window type, and the operations that open, close, focus and
//! adjust them. Replacement operations create the new window before closing
//! old ones, so the set of registered windows never drops to zero in
//! between; a collaborator may treat "zero open windows" as the signal to
//! terminate the whole process.
//!
//! Every operation updates the registry model and returns the exact actions
//! the windowing backend must perform, in order. Should the backend then
//! fail to create a window, the caller reverses the registration with
//! `close_window`.

use vstd::prelude::*;
use vstd::string::StringExecFns;

use crate::window_config::spec_config_matches;
use crate::window_config::WindowConfig;
use crate::window_config::WindowConfigManager;
use crate::window_type::WindowType;

verus! {

/// One open window as the registry tracks it: its identity and the
/// visibility, focus and geometry bookkeeping.
#[derive(Debug, PartialEq)]
pub struct WindowInstance {
    pub label: String,
    pub visible: bool,
    pub focused: bool,
    pub minimized: bool,
    pub maximized: bool,
    pub always_on_top: bool,
    pub width: u32,
    pub height: u32,
    /// Last position the coordinator moved the window to; nothing while the
    /// window still sits where the backend centred it.
    pub position: Option<(i32, i32)>,
}

impl Clone for WindowInstance {
    fn clone(&self) -> (r: Self)
        ensures
            r == self,
    {
        WindowInstance {
            label: self.label.clone(),
            visible: self.visible,
            focused: self.focused,
            minimized: self.minimized,
            maximized: self.maximized,
            always_on_top: self.always_on_top,
            width: self.width,
            height: self.height,
            position: self.position,
        }
    }
}

/// The mathematical value of a [`WindowInstance`].
#[verifier::ext_equal]
pub struct InstanceView {
    pub label: Seq<char>,
    pub visible: bool,
    pub focused: bool,
    pub minimized: bool,
    pub maximized: bool,
    pub always_on_top: bool,
    pub width: u32,
    pub height: u32,
    pub position: Option<(i32, i32)>,
}

impl View for WindowInstance {
    type V = InstanceView;

    open spec fn view(&self) -> InstanceView {
        InstanceView {
            label: self.label@,
            visible: self.visible,
            focused: self.focused,
            minimized: self.minimized,
            maximized: self.maximized,
            always_on_top: self.always_on_top,
            width: self.width,
            height: self.height,
            position: self.position,
        }
    }
}

/// The views of a sequence of window instances.
pub open spec fn spec_views_of(s: Seq<WindowInstance>) -> Seq<InstanceView> {
    s.map_values(|w: WindowInstance| w@)
}

/// One command for the windowing backend, to be performed in the order
/// returned.
#[derive(Debug, PartialEq)]
pub enum WindowAction {
    Create(WindowConfig),
    Focus(String),
    Close(String),
    Hide(String),
    Show(String),
    Minimize(String),
    Maximize(String),
    Unmaximize(String),
    Resize(String, u32, u32),
    Move(String, i32, i32),
    SetAlwaysOnTop(String, bool),
}

/// True iff some registered window carries `l`.
pub open spec fn spec_contains_label(s: Seq<InstanceView>, l: Seq<char>) -> bool {
    exists|i: int| 0 <= i < s.len() && s[i].label == l
}

/// Index of the first window labelled `l` (meaningful only when one exists).
pub open spec fn spec_first_index(s: Seq<InstanceView>, l: Seq<char>) -> int
    decreases s.len(),
{
    if s.len() == 0 {
        0
    } else if s[0].label == l {
        0
    } else {
        1 + spec_first_index(s.drop_first(), l)
    }
}

/// No two registered windows share a label.
pub open spec fn spec_labels_unique(s: Seq<InstanceView>) -> bool {
    forall|i: int, j: int| 0 <= i < j < s.len() ==> s[i].label != s[j].label
}

pub proof fn lemma_first_index(s: Seq<InstanceView>, l: Seq<char>)
    requires
        spec_contains_label(s, l),
    ensures
        ({
            let k = spec_first_index(s, l);
            &&& 0 <= k < s.len()
            &&& s[k].label == l
            &&& forall|j: int| 0 <= j < k ==> s[j].label != l
        }),
    decreases s.len(),
{
    if s[0].label == l {
    } else {
        let w = choose|i: int| 0 <= i < s.len() && s[i].label == l;
        assert(s.drop_first()[w - 1].label == l);
        lemma_first_index(s.drop_first(), l);
        let k = spec_first_index(s, l);
        assert(s[k].label == l);
        assert forall|j: int| 0 <= j < k implies s[j].label != l by {
            if j > 0 {
                assert(s.drop_first()[j - 1].label != l);
            }
        }
    }
}

/// The first index is the only index whose prefix is free of the label.
pub proof fn lemma_first_index_is(s: Seq<InstanceView>, l: Seq<char>, k: int)
    requires
        0 <= k < s.len(),
        s[k].label == l,
        forall|j: int| 0 <= j < k ==> s[j].label != l,
    ensures
        spec_first_index(s, l) == k,
{
    assert(spec_contains_label(s, l));
    lemma_first_index(s, l);
    let f = spec_first_index(s, l);
    if f < k {
        assert(s[f].label != l);
    }
    if k < f {
        assert(s[k].label != l);
    }
}

/// Replacing a window by one with the same label keeps labels unique.
pub proof fn lemma_update_keeps_unique(s: Seq<InstanceView>, i: int, w: InstanceView)
    requires
        spec_labels_unique(s),
        0 <= i < s.len(),
        w.label == s[i].label,
    ensures
        spec_labels_unique(s.update(i, w)),
{
}

/// Removing a window keeps labels unique.
pub proof fn lemma_remove_keeps_unique(s: Seq<InstanceView>, i: int)
    requires
        spec_labels_unique(s),
        0 <= i < s.len(),
    ensures
        spec_labels_unique(s.remove(i)),
{
    let t = s.remove(i);
    assert forall|a: int, b: int| 0 <= a < b < t.len() implies t[a].label != t[b].label by {
        let a0: int = if a < i { a } else { a + 1 };
        let b0: int = if b < i { b } else { b + 1 };
        assert(t[a] == s[a0]);
        assert(t[b] == s[b0]);
    }
}

/// A freshly focused window: visible, raised and no longer minimized.
pub open spec fn spec_focused(w: InstanceView) -> InstanceView {
    InstanceView { visible: true, focused: true, minimized: false, ..w }
}

/// The registry entry a fresh window of type `t` starts as.
pub open spec fn spec_new_instance(t: WindowType) -> InstanceView {
    InstanceView {
        label: t.spec_label(),
        visible: true,
        focused: true,
        minimized: false,
        maximized: false,
        always_on_top: t.spec_always_on_top(),
        width: t.spec_size().0,
        height: t.spec_size().1,
        position: Option::None,
    }
}

/// Focus: a no-op without the label, otherwise the entry is re-shown,
/// un-minimized and marked focused.
pub open spec fn spec_focus(s: Seq<InstanceView>, l: Seq<char>) -> Seq<InstanceView> {
    if spec_contains_label(s, l) {
        s.update(spec_first_index(s, l), spec_focused(s[spec_first_index(s, l)]))
    } else {
        s
    }
}

/// Open: focus the existing window of that type, or register a fresh one.
/// Never creates a duplicate.
pub open spec fn spec_open(s: Seq<InstanceView>, t: WindowType) -> Seq<InstanceView> {
    if spec_contains_label(s, t.spec_label()) {
        spec_focus(s, t.spec_label())
    } else {
        s.push(spec_new_instance(t))
    }
}

/// Close: a no-op without the label, otherwise the entry leaves the
/// registry.
pub open spec fn spec_close(s: Seq<InstanceView>, l: Seq<char>) -> Seq<InstanceView> {
    if spec_contains_label(s, l) {
        s.remove(spec_first_index(s, l))
    } else {
        s
    }
}

/// Switch: open the destination first, then close the source — unless both
/// are the same label, in which case the close is skipped so the window
/// just focused is not destroyed.
pub open spec fn spec_switch(s: Seq<InstanceView>, from: Seq<char>, t: WindowType) -> Seq<
    InstanceView,
> {
    if from == t.spec_label() {
        spec_open(s, t)
    } else {
        spec_close(spec_open(s, t), from)
    }
}

/// Replace-all: open the destination first, then close every other window.
/// Exactly the destination's entry remains.
pub open spec fn spec_replace_all(s: Seq<InstanceView>, t: WindowType) -> Seq<InstanceView> {
    let s1 = spec_open(s, t);
    seq![s1[spec_first_index(s1, t.spec_label())]]
}


/// A hidden window: only the visibility flag drops.
pub open spec fn spec_hidden(w: InstanceView) -> InstanceView {
    InstanceView { visible: false, ..w }
}

/// A shown window.
pub open spec fn spec_shown(w: InstanceView) -> InstanceView {
    InstanceView { visible: true, ..w }
}

/// A minimized window.
pub open spec fn spec_minimized(w: InstanceView) -> InstanceView {
    InstanceView { minimized: true, ..w }
}

/// A maximized window.
pub open spec fn spec_maximized(w: InstanceView) -> InstanceView {
    InstanceView { maximized: true, ..w }
}

/// A window returned to normal size.
pub open spec fn spec_unmaximized(w: InstanceView) -> InstanceView {
    InstanceView { maximized: false, ..w }
}

/// A window resized to the given inner size.
pub open spec fn spec_resized(w: InstanceView, width: u32, height: u32) -> InstanceView {
    InstanceView { width: width, height: height, ..w }
}

/// A window moved to the given position.
pub open spec fn spec_moved(w: InstanceView, x: i32, y: i32) -> InstanceView {
    InstanceView { position: Option::Some((x, y)), ..w }
}

/// A window pinned above the others, or released.
pub open spec fn spec_pinned(w: InstanceView, on_top: bool) -> InstanceView {
    InstanceView { always_on_top: on_top, ..w }
}

/// Hide: a no-op without the label, otherwise the entry is marked hidden.
pub open spec fn spec_hide(s: Seq<InstanceView>, l: Seq<char>) -> Seq<InstanceView> {
    if spec_contains_label(s, l) {
        s.update(spec_first_index(s, l), spec_hidden(s[spec_first_index(s, l)]))
    } else {
        s
    }
}

/// Show: a no-op without the label, otherwise the entry is marked visible.
pub open spec fn spec_show(s: Seq<InstanceView>, l: Seq<char>) -> Seq<InstanceView> {
    if spec_contains_label(s, l) {
        s.update(spec_first_index(s, l), spec_shown(s[spec_first_index(s, l)]))
    } else {
        s
    }
}

/// Minimize: a no-op without the label, otherwise the entry is marked
/// minimized.
pub open spec fn spec_minimize(s: Seq<InstanceView>, l: Seq<char>) -> Seq<InstanceView> {
    if spec_contains_label(s, l) {
        s.update(spec_first_index(s, l), spec_minimized(s[spec_first_index(s, l)]))
    } else {
        s
    }
}

/// Maximize: a no-op without the label, otherwise the entry is marked
/// maximized.
pub open spec fn spec_maximize(s: Seq<InstanceView>, l: Seq<char>) -> Seq<InstanceView> {
    if spec_contains_label(s, l) {
        s.update(spec_first_index(s, l), spec_maximized(s[spec_first_index(s, l)]))
    } else {
        s
    }
}

/// Unmaximize: a no-op without the label, otherwise the entry returns to
/// normal size.
pub open spec fn spec_unmaximize(s: Seq<InstanceView>, l: Seq<char>) -> Seq<InstanceView> {
    if spec_contains_label(s, l) {
        s.update(spec_first_index(s, l), spec_unmaximized(s[spec_first_index(s, l)]))
    } else {
        s
    }
}

/// Resize: a no-op without the label, otherwise the entry records the new
/// inner size.
pub open spec fn spec_resize(s: Seq<InstanceView>, l: Seq<char>, width: u32, height: u32) -> Seq<
    InstanceView,
> {
    if spec_contains_label(s, l) {
        s.update(spec_first_index(s, l), spec_resized(s[spec_first_index(s, l)], width, height))
    } else {
        s
    }
}

/// Move: a no-op without the label, otherwise the entry records the new
/// position.
pub open spec fn spec_move(s: Seq<InstanceView>, l: Seq<char>, x: i32, y: i32) -> Seq<
    InstanceView,
> {
    if spec_contains_label(s, l) {
        s.update(spec_first_index(s, l), spec_moved(s[spec_first_index(s, l)], x, y))
    } else {
        s
    }
}

/// Pin: a no-op without the label, otherwise the entry records the new
/// always-on-top flag.
pub open spec fn spec_set_always_on_top(s: Seq<InstanceView>, l: Seq<char>, on_top: bool) -> Seq<
    InstanceView,
> {
    if spec_contains_label(s, l) {
        s.update(spec_first_index(s, l), spec_pinned(s[spec_first_index(s, l)], on_top))
    } else {
        s
    }
}

/// The backend command an open settles on: create from the catalog
/// configuration when the type was absent, focus the existing window
/// otherwise.
pub open spec fn spec_is_open_action(s: Seq<InstanceView>, t: WindowType, a: WindowAction) -> bool {
    if spec_contains_label(s, t.spec_label()) {
        a matches WindowAction::Focus(l) && l@ == t.spec_label()
    } else {
        a matches WindowAction::Create(c) && spec_config_matches(t, c) && c.wf()
    }
}

/// How many registered windows carry `l`.
pub open spec fn spec_count_label(s: Seq<InstanceView>, l: Seq<char>) -> nat
    decreases s.len(),
{
    if s.len() == 0 {
        0
    } else {
        (if s[0].label == l {
            1nat
        } else {
            0nat
        }) + spec_count_label(s.drop_first(), l)
    }
}

pub proof fn lemma_count_label_zero(s: Seq<InstanceView>, l: Seq<char>)
    requires
        !spec_contains_label(s, l),
    ensures
        spec_count_label(s, l) == 0,
    decreases s.len(),
{
    if s.len() > 0 {
        assert forall|i: int| 0 <= i < s.drop_first().len() implies s.drop_first()[i].label
            != l by {
            assert(s[i + 1].label != l);
        }
        lemma_count_label_zero(s.drop_first(), l);
    }
}

pub proof fn lemma_count_label_one(s: Seq<InstanceView>, l: Seq<char>)
    requires
        spec_labels_unique(s),
        spec_contains_label(s, l),
    ensures
        spec_count_label(s, l) == 1,
    decreases s.len(),
{
    let rest = s.drop_first();
    assert forall|i: int, j: int| 0 <= i < j < rest.len() implies rest[i].label != rest[j].label by {
        assert(s[i + 1].label != s[j + 1].label);
    }
    if s[0].label == l {
        assert forall|i: int| 0 <= i < rest.len() implies rest[i].label != l by {
            assert(s[0].label != s[i + 1].label);
        }
        lemma_count_label_zero(rest, l);
    } else {
        let w = choose|i: int| 0 <= i < s.len() && s[i].label == l;
        assert(rest[w - 1].label == l);
        lemma_count_label_one(rest, l);
    }
}

/// After an open, a window of the requested type is always registered.
pub proof fn lemma_open_contains(s: Seq<InstanceView>, t: WindowType)
    ensures
        spec_contains_label(spec_open(s, t), t.spec_label()),
        spec_open(s, t).len() >= 1,
        spec_open(s, t).len() == if spec_contains_label(s, t.spec_label()) {
            s.len() as int
        } else {
            s.len() + 1 as int
        },
{
    let l = t.spec_label();
    if spec_contains_label(s, l) {
        lemma_first_index(s, l);
        let k = spec_first_index(s, l);
        assert(spec_open(s, t)[k].label == l);
    } else {
        assert(spec_open(s, t)[s.len() as int].label == l);
    }
}

/// Law: opening a window keeps labels unique.
pub proof fn lemma_open_preserves_unique(s: Seq<InstanceView>, t: WindowType)
    requires
        spec_labels_unique(s),
    ensures
        spec_labels_unique(spec_open(s, t)),
{
    let l = t.spec_label();
    if spec_contains_label(s, l) {
        lemma_first_index(s, l);
        lemma_update_keeps_unique(s, spec_first_index(s, l), spec_focused(s[spec_first_index(s, l)]));
    } else {
        let u = spec_open(s, t);
        assert forall|a: int, b: int| 0 <= a < b < u.len() implies u[a].label != u[b].label by {
            if b == s.len() {
                assert(spec_contains_label(s, s[a].label));
            }
        }
    }
}

/// Law: closing a window keeps labels unique.
pub proof fn lemma_close_preserves_unique(s: Seq<InstanceView>, l: Seq<char>)
    requires
        spec_labels_unique(s),
    ensures
        spec_labels_unique(spec_close(s, l)),
{
    if spec_contains_label(s, l) {
        lemma_first_index(s, l);
        lemma_remove_keeps_unique(s, spec_first_index(s, l));
    }
}

/// Closing one label never removes a window with another label.
pub proof fn lemma_close_keeps_other(s: Seq<InstanceView>, l: Seq<char>, other: Seq<char>)
    requires
        spec_contains_label(s, other),
        other != l,
    ensures
        spec_contains_label(spec_close(s, l), other),
        spec_close(s, l).len() >= 1,
{
    if spec_contains_label(s, l) {
        lemma_first_index(s, l);
        let k = spec_first_index(s, l);
        let io = choose|i: int| 0 <= i < s.len() && s[i].label == other;
        assert(io != k);
        if io < k {
            assert(s.remove(k)[io].label == other);
        } else {
            assert(s.remove(k)[io - 1] == s[io]);
            assert(s.remove(k)[io - 1].label == other);
        }
    }
}

/// Law: open is idempotent. Opening a type that is already open is exactly
/// a focus of the existing window, and either way exactly one window with
/// the type's label is registered afterwards.
pub proof fn lemma_open_idempotent(s: Seq<InstanceView>, t: WindowType)
    requires
        spec_labels_unique(s),
    ensures
        spec_open(spec_open(s, t), t) == spec_focus(spec_open(s, t), t.spec_label()),
        spec_count_label(spec_open(s, t), t.spec_label()) == 1,
        spec_count_label(spec_open(spec_open(s, t), t), t.spec_label()) == 1,
{
    let l = t.spec_label();
    let s1 = spec_open(s, t);
    lemma_open_contains(s, t);
    lemma_open_preserves_unique(s, t);
    lemma_count_label_one(s1, l);
    let s2 = spec_open(s1, t);
    assert(s2 == spec_focus(s1, l));
    lemma_open_preserves_unique(s1, t);
    lemma_open_contains(s1, t);
    lemma_count_label_one(s2, l);
}

/// Law: a switch never empties the registry — not at completion, and not
/// between its create step and its close step. The destination stays
/// registered throughout.
pub proof fn lemma_switch_never_empty(s: Seq<InstanceView>, from: Seq<char>, t: WindowType)
    ensures
        spec_open(s, t).len() >= 1,
        spec_contains_label(spec_open(s, t), t.spec_label()),
        spec_switch(s, from, t).len() >= 1,
        spec_contains_label(spec_switch(s, from, t), t.spec_label()),
{
    lemma_open_contains(s, t);
    if from != t.spec_label() {
        lemma_close_keeps_other(spec_open(s, t), from, t.spec_label());
    }
}

/// Law: a replace-all leaves exactly one registered window, carrying the
/// destination type's label; the create step precedes every close and the
/// registry is never empty in between. A one-window registry trivially has
/// unique labels.
pub proof fn lemma_replace_all_single(s: Seq<InstanceView>, t: WindowType)
    ensures
        spec_open(s, t).len() >= 1,
        spec_replace_all(s, t).len() == 1,
        spec_replace_all(s, t)[0].label == t.spec_label(),
        spec_labels_unique(spec_replace_all(s, t)),
{
    lemma_open_contains(s, t);
    lemma_first_index(spec_open(s, t), t.spec_label());
}

/// Law: a switch keeps labels unique, so any sequence of opens, closes,
/// switches and replace-alls started from the empty registry stays free of
/// duplicate labels.
pub proof fn lemma_switch_preserves_unique(s: Seq<InstanceView>, from: Seq<char>, t: WindowType)
    requires
        spec_labels_unique(s),
    ensures
        spec_labels_unique(spec_switch(s, from, t)),
{
    lemma_open_preserves_unique(s, t);
    if from != t.spec_label() {
        lemma_close_preserves_unique(spec_open(s, t), from);
    }
}

/// The registry and coordinator. Keeps at most one window per label; the
/// actual windows live in the backend, which mirrors this model by
/// performing the returned [`WindowAction`]s.
pub struct WindowManager {
    windows: Vec<WindowInstance>,
}

impl View for WindowManager {
    type V = Seq<InstanceView>;

    closed spec fn view(&self) -> Seq<InstanceView> {
        spec_views_of(self.windows@)
    }
}

/// The outcome of an open: either the backend must create a window from the
/// returned configuration, or the window already existed and must only be
/// focused.
#[derive(Debug, PartialEq)]
pub enum OpenOutcome {
    Created(WindowConfig),
    Focused(String),
}

impl OpenOutcome {
    /// The label of the window the open settled on.
    pub open spec fn spec_label(self) -> Seq<char> {
        match self {
            OpenOutcome::Created(c) => c.label@,
            OpenOutcome::Focused(l) => l@,
        }
    }

    pub fn label(&self) -> (r: &String)
        ensures
            r@ == self.spec_label(),
    {
        match self {
            OpenOutcome::Created(c) => &c.label,
            OpenOutcome::Focused(l) => l,
        }
    }
}

fn find_label_index(ws: &Vec<WindowInstance>, label: &String) -> (r: Option<usize>)
    ensures
        match r {
            Option::Some(i) => {
                &&& (i as int) < spec_views_of(ws@).len()
                &&& spec_views_of(ws@)[i as int].label == label@
                &&& spec_contains_label(spec_views_of(ws@), label@)
                &&& i as int == spec_first_index(spec_views_of(ws@), label@)
            },
            Option::None => !spec_contains_label(spec_views_of(ws@), label@),
        },
{
    let mut i: usize = 0;
    while i < ws.len()
        invariant
            i <= ws@.len(),
            forall|j: int| 0 <= j < i ==> spec_views_of(ws@)[j].label != label@,
        decreases ws@.len() - i,
    {
        if ws[i].label == *label {
            proof {
                lemma_first_index_is(spec_views_of(ws@), label@, i as int);
            }
            return Option::Some(i);
        }
        i += 1;
    }
    Option::None
}

impl WindowManager {
    #[verifier::type_invariant]
    spec fn inv(self) -> bool {
        spec_labels_unique(self@)
    }

    /// An empty registry: nothing open yet.
    pub fn new() -> (r: Self)
        ensures
            r@ == Seq::<InstanceView>::empty(),
    {
        let r = WindowManager { windows: Vec::new() };
        proof {
            assert(r@ =~= Seq::<InstanceView>::empty());
        }
        r
    }

    /// Pure query: is a window with this label registered?
    pub fn window_exists(&self, label: &str) -> (r: bool)
        ensures
            r == spec_contains_label(self@, label@),
    {
        let owned: String = label.to_owned();
        match find_label_index(&self.windows, &owned) {
            Option::Some(_) => true,
            Option::None => false,
        }
    }

    /// The labels of all registered windows, in registration order.
    pub fn list_windows(&self) -> (r: Vec<String>)
        ensures
            r@.len() == self@.len(),
            forall|i: int| 0 <= i < r@.len() ==> r@[i]@ == self@[i].label,
    {
        let mut r: Vec<String> = Vec::new();
        let mut i: usize = 0;
        while i < self.windows.len()
            invariant
                i <= self.windows@.len(),
                r@.len() == i,
                forall|j: int| 0 <= j < i ==> r@[j]@ == spec_views_of(self.windows@)[j].label,
            decreases self.windows@.len() - i,
        {
            r.push(self.windows[i].label.clone());
            i += 1;
        }
        r
    }

    /// Open: never creates a duplicate. If a window of this type is already
    /// registered it is focused instead, and the registry keeps its length;
    /// otherwise the new entry is registered and the backend must create it
    /// from the returned configuration.
    pub fn open_window(&mut self, window_type: WindowType) -> (r: OpenOutcome)
        ensures
            final(self)@ == spec_open(old(self)@, window_type),
            r.spec_label() == window_type.spec_label(),
            spec_contains_label(old(self)@, window_type.spec_label()) ==> (r matches
                OpenOutcome::Focused(l) && l@ == window_type.spec_label()),
            !spec_contains_label(old(self)@, window_type.spec_label()) ==> (r matches
                OpenOutcome::Created(c) && spec_config_matches(window_type, c) && c.wf()),
    {
        proof {
            use_type_invariant(&*self);
        }
        let config = WindowConfigManager::get_config(window_type);
        match find_label_index(&self.windows, &config.label) {
            Option::Some(i) => {
                proof {
                    lemma_first_index(self@, config.label@);
                }
                let mut ws: Vec<WindowInstance> = Vec::new();
                core::mem::swap(&mut ws, &mut self.windows);
                let mut w = ws.remove(i);
                w.visible = true;
                w.focused = true;
                w.minimized = false;
                ws.insert(i, w);
                proof {
                    let s0 = old(self)@;
                    assert(spec_views_of(ws@) =~= s0.update(i as int, spec_focused(s0[i as int])));
                    lemma_update_keeps_unique(s0, i as int, spec_focused(s0[i as int]));
                }
                core::mem::swap(&mut ws, &mut self.windows);
                OpenOutcome::Focused(config.label)
            },
            Option::None => {
                let inst = WindowInstance {
                    label: config.label.clone(),
                    visible: true,
                    focused: true,
                    minimized: false,
                    maximized: false,
                    always_on_top: config.always_on_top,
                    width: config.width,
                    height: config.height,
                    position: Option::None,
                };
                let mut ws: Vec<WindowInstance> = Vec::new();
                core::mem::swap(&mut ws, &mut self.windows);
                ws.push(inst);
                proof {
                    let s0 = old(self)@;
                    assert(spec_views_of(ws@) =~= s0.push(spec_new_instance(window_type)));
                    assert forall|a: int, b: int|
                        0 <= a < b < spec_views_of(ws@).len() implies spec_views_of(
                        ws@,
                    )[a].label != spec_views_of(ws@)[b].label by {
                        if b == s0.len() {
                            assert(spec_contains_label(s0, s0[a].label));
                        }
                    }
                }
                core::mem::swap(&mut ws, &mut self.windows);
                OpenOutcome::Created(config)
            },
        }
    }

    /// Focus: a no-op success on an absent label, otherwise the window is
    /// shown, un-minimized and marked focused, and the backend must do the
    /// same.
    pub fn focus_window(&mut self, label: String) -> (r: Option<WindowAction>)
        ensures
            final(self)@ == spec_focus(old(self)@, label@),
            r is Some <==> spec_contains_label(old(self)@, label@),
            (r matches Option::Some(a) ==> a matches WindowAction::Focus(l) && l@ == label@),
    {
        proof {
            use_type_invariant(&*self);
        }
        match find_label_index(&self.windows, &label) {
            Option::None => Option::None,
            Option::Some(i) => {
                let mut ws: Vec<WindowInstance> = Vec::new();
                core::mem::swap(&mut ws, &mut self.windows);
                let mut w = ws.remove(i);
                w.visible = true;
                w.focused = true;
                w.minimized = false;
                ws.insert(i, w);
                proof {
                    let s0 = old(self)@;
                    assert(spec_views_of(ws@) =~= s0.update(i as int, spec_focused(s0[i as int])));
                    lemma_update_keeps_unique(s0, i as int, spec_focused(s0[i as int]));
                }
                core::mem::swap(&mut ws, &mut self.windows);
                Option::Some(WindowAction::Focus(label))
            },
        }
    }

    /// Close: a no-op success on an absent label — closing something
    /// already gone is not a failure — otherwise the entry leaves the
    /// registry and the backend must close the window.
    pub fn close_window(&mut self, label: String) -> (r: Option<WindowAction>)
        ensures
            final(self)@ == spec_close(old(self)@, label@),
            r is Some <==> spec_contains_label(old(self)@, label@),
            (r matches Option::Some(a) ==> a matches WindowAction::Close(l) && l@ == label@),
    {
        proof {
            use_type_invariant(&*self);
        }
        match find_label_index(&self.windows, &label) {
            Option::None => Option::None,
            Option::Some(i) => {
                let mut ws: Vec<WindowInstance> = Vec::new();
                core::mem::swap(&mut ws, &mut self.windows);
                ws.remove(i);
                proof {
                    let s0 = old(self)@;
                    assert(spec_views_of(ws@) =~= s0.remove(i as int));
                    lemma_remove_keeps_unique(s0, i as int);
                }
                core::mem::swap(&mut ws, &mut self.windows);
                Option::Some(WindowAction::Close(label))
            },
        }
    }

    /// Switch: opens the destination first and only then closes the source
    /// window, so the registry never empties in between. When source and
    /// destination share a label the close is skipped: it would destroy the
    /// window just focused. The returned actions carry the same order:
    /// first the create-or-focus, then at most one close. This method
    /// commits both steps at once; a caller whose backend may refuse the
    /// create drives `open_window` and `close_window` as separate calls and
    /// tests the create in between, so a failed create leaves the source
    /// registered.
    pub fn switch_window(&mut self, from_label: String, to_window_type: WindowType) -> (actions:
        Vec<WindowAction>)
        ensures
            final(self)@ == spec_switch(old(self)@, from_label@, to_window_type),
            final(self)@.len() >= 1,
            spec_contains_label(final(self)@, to_window_type.spec_label()),
            actions@.len() >= 1,
            spec_is_open_action(old(self)@, to_window_type, actions@[0]),
            from_label@ == to_window_type.spec_label() ==> actions@.len() == 1,
            (from_label@ != to_window_type.spec_label() && spec_contains_label(
                spec_open(old(self)@, to_window_type),
                from_label@,
            )) ==> actions@.len() == 2 && (actions@[1] matches WindowAction::Close(l) && l@
                == from_label@),
            (from_label@ != to_window_type.spec_label() && !spec_contains_label(
                spec_open(old(self)@, to_window_type),
                from_label@,
            )) ==> actions@.len() == 1,
    {
        let mut actions: Vec<WindowAction> = Vec::new();
        match self.open_window(to_window_type) {
            OpenOutcome::Created(c) => actions.push(WindowAction::Create(c)),
            OpenOutcome::Focused(l) => actions.push(WindowAction::Focus(l)),
        }
        let to_label: String = to_window_type.as_str().to_owned();
        proof {
            lemma_open_contains(old(self)@, to_window_type);
        }
        if from_label == to_label {
            // The destination is the window just focused; do not close it.
        } else {
            proof {
                lemma_close_keeps_other(
                    spec_open(old(self)@, to_window_type),
                    from_label@,
                    to_window_type.spec_label(),
                );
            }
            match self.close_window(from_label) {
                Option::Some(a) => actions.push(a),
                Option::None => {},
            }
        }
        actions
    }

    /// Replace-all: opens the destination first, then closes every other
    /// registered window, leaving exactly one window open. The returned
    /// actions carry the same order: the create-or-focus first, then the
    /// closes of the other windows as they stood in the registry. As with
    /// a switch, a caller whose backend may refuse the create drives the
    /// open and the closes as separate calls and tests the create first.
    pub fn replace_all_windows(&mut self, window_type: WindowType) -> (actions: Vec<WindowAction>)
        ensures
            final(self)@ == spec_replace_all(old(self)@, window_type),
            final(self)@.len() == 1,
            final(self)@[0].label == window_type.spec_label(),
            actions@.len() == spec_open(old(self)@, window_type).len(),
            spec_is_open_action(old(self)@, window_type, actions@[0]),
            ({
                let s1 = spec_open(old(self)@, window_type);
                let k = spec_first_index(s1, window_type.spec_label());
                forall|q: int|
                    1 <= q < actions@.len() ==> (#[trigger] actions@[q] matches
                        WindowAction::Close(x) && x@ == s1.remove(k)[q - 1].label)
            }),
    {
        let mut actions: Vec<WindowAction> = Vec::new();
        match self.open_window(window_type) {
            OpenOutcome::Created(c) => actions.push(WindowAction::Create(c)),
            OpenOutcome::Focused(l) => actions.push(WindowAction::Focus(l)),
        }
        let keep: String = window_type.as_str().to_owned();
        proof {
            use_type_invariant(&*self);
            lemma_open_contains(old(self)@, window_type);
        }
        let ki = match find_label_index(&self.windows, &keep) {
            Option::Some(k) => k,
            Option::None => unreached(),
        };
        let ghost a0 = actions@[0];
        let mut ws: Vec<WindowInstance> = Vec::new();
        core::mem::swap(&mut ws, &mut self.windows);
        let ghost s1 = spec_views_of(ws@);
        proof {
            assert(spec_views_of(ws@) =~= s1.subrange(0, s1.len() as int));
        }
        let n = ws.len();
        let mut kept: Vec<WindowInstance> = Vec::new();
        let mut m: usize = 0;
        while m < n
            invariant
                m <= n,
                n == s1.len(),
                (ki as int) < n as int,
                s1[ki as int].label == keep@,
                ki as int == spec_first_index(s1, keep@),
                spec_views_of(ws@) =~= s1.subrange(m as int, n as int),
                kept@.len() == (if m <= ki { 0int } else { 1int }),
                m > ki ==> spec_views_of(kept@) =~= seq![s1[ki as int]],
                actions@.len() == 1 + (if m <= ki { m as int } else { m - 1 }),
                actions@[0] == a0,
                forall|q: int|
                    1 <= q < actions@.len() ==> (#[trigger] actions@[q] matches
                        WindowAction::Close(x) && x@ == s1.remove(ki as int)[q - 1].label),
            decreases n - m,
        {
            proof {
                s1.remove_ensures(ki as int);
                assert(spec_views_of(ws@).len() == ws@.len());
                assert(ws@.len() == n - m);
                assert(spec_views_of(ws@)[0] == s1[m as int]);
            }
            let ghost prev = ws@;
            let w = ws.remove(0);
            proof {
                prev.remove_ensures(0);
                assert(w@ == spec_views_of(prev)[0]);
                assert(w@ == s1[m as int]);
                assert(ws@.len() == n - m - 1);
                assert forall|j: int| 0 <= j < ws@.len() implies spec_views_of(ws@)[j] == s1[m + 1
                    + j] by {
                    assert(ws@[j] == prev[j + 1]);
                    assert(spec_views_of(prev)[j + 1] == s1.subrange(m as int, n as int)[j + 1]);
                }
                assert(spec_views_of(ws@) =~= s1.subrange(m + 1, n as int));
            }
            if m == ki {
                kept.push(w);
                proof {
                    assert(spec_views_of(kept@) =~= seq![s1[ki as int]]);
                }
            } else {
                actions.push(WindowAction::Close(w.label));
            }
            m += 1;
        }
        proof {
            s1.remove_ensures(ki as int);
        }
        core::mem::swap(&mut kept, &mut self.windows);
        actions
    }

    /// Hide: a no-op success on an absent label, otherwise the window is
    /// marked hidden and the backend must hide it.
    pub fn hide_window(&mut self, label: String) -> (r: Option<WindowAction>)
        ensures
            final(self)@ == spec_hide(old(self)@, label@),
            r is Some <==> spec_contains_label(old(self)@, label@),
            (r matches Option::Some(a) ==> a matches WindowAction::Hide(l) && l@ == label@),
    {
        proof {
            use_type_invariant(&*self);
        }
        match find_label_index(&self.windows, &label) {
            Option::None => Option::None,
            Option::Some(i) => {
                let mut ws: Vec<WindowInstance> = Vec::new();
                core::mem::swap(&mut ws, &mut self.windows);
                let mut w = ws.remove(i);
                w.visible = false;
                ws.insert(i, w);
                proof {
                    let s0 = old(self)@;
                    assert(spec_views_of(ws@) =~= s0.update(i as int, spec_hidden(s0[i as int])));
                    lemma_update_keeps_unique(s0, i as int, spec_hidden(s0[i as int]));
                }
                core::mem::swap(&mut ws, &mut self.windows);
                Option::Some(WindowAction::Hide(label))
            },
        }
    }

    /// Show: a no-op success on an absent label, otherwise the window is
    /// marked visible and the backend must show it.
    pub fn show_window(&mut self, label: String) -> (r: Option<WindowAction>)
        ensures
            final(self)@ == spec_show(old(self)@, label@),
            r is Some <==> spec_contains_label(old(self)@, label@),
            (r matches Option::Some(a) ==> a matches WindowAction::Show(l) && l@ == label@),
    {
        proof {
            use_type_invariant(&*self);
        }
        match find_label_index(&self.windows, &label) {
            Option::None => Option::None,
            Option::Some(i) => {
                let mut ws: Vec<WindowInstance> = Vec::new();
                core::mem::swap(&mut ws, &mut self.windows);
                let mut w = ws.remove(i);
                w.visible = true;
                ws.insert(i, w);
                proof {
                    let s0 = old(self)@;
                    assert(spec_views_of(ws@) =~= s0.update(i as int, spec_shown(s0[i as int])));
                    lemma_update_keeps_unique(s0, i as int, spec_shown(s0[i as int]));
                }
                core::mem::swap(&mut ws, &mut self.windows);
                Option::Some(WindowAction::Show(label))
            },
        }
    }

    /// Minimize: a no-op success on an absent label, otherwise the window
    /// is marked minimized and the backend must minimize it.
    pub fn minimize_window(&mut self, label: String) -> (r: Option<WindowAction>)
        ensures
            final(self)@ == spec_minimize(old(self)@, label@),
            r is Some <==> spec_contains_label(old(self)@, label@),
            (r matches Option::Some(a) ==> a matches WindowAction::Minimize(l) && l@ == label@),
    {
        proof {
            use_type_invariant(&*self);
        }
        match find_label_index(&self.windows, &label) {
            Option::None => Option::None,
            Option::Some(i) => {
                let mut ws: Vec<WindowInstance> = Vec::new();
                core::mem::swap(&mut ws, &mut self.windows);
                let mut w = ws.remove(i);
                w.minimized = true;
                ws.insert(i, w);
                proof {
                    let s0 = old(self)@;
                    assert(spec_views_of(ws@) =~= s0.update(
                        i as int,
                        spec_minimized(s0[i as int]),
                    ));
                    lemma_update_keeps_unique(s0, i as int, spec_minimized(s0[i as int]));
                }
                core::mem::swap(&mut ws, &mut self.windows);
                Option::Some(WindowAction::Minimize(label))
            },
        }
    }

    /// Maximize: a no-op success on an absent label, otherwise the window
    /// is marked maximized and the backend must maximize it.
    pub fn maximize_window(&mut self, label: String) -> (r: Option<WindowAction>)
        ensures
            final(self)@ == spec_maximize(old(self)@, label@),
            r is Some <==> spec_contains_label(old(self)@, label@),
            (r matches Option::Some(a) ==> a matches WindowAction::Maximize(l) && l@ == label@),
    {
        proof {
            use_type_invariant(&*self);
        }
        match find_label_index(&self.windows, &label) {
            Option::None => Option::None,
            Option::Some(i) => {
                let mut ws: Vec<WindowInstance> = Vec::new();
                core::mem::swap(&mut ws, &mut self.windows);
                let mut w = ws.remove(i);
                w.maximized = true;
                ws.insert(i, w);
                proof {
                    let s0 = old(self)@;
                    assert(spec_views_of(ws@) =~= s0.update(
                        i as int,
                        spec_maximized(s0[i as int]),
                    ));
                    lemma_update_keeps_unique(s0, i as int, spec_maximized(s0[i as int]));
                }
                core::mem::swap(&mut ws, &mut self.windows);
                Option::Some(WindowAction::Maximize(label))
            },
        }
    }

    /// Unmaximize: a no-op success on an absent label, otherwise the window
    /// returns to normal size.
    pub fn unmaximize_window(&mut self, label: String) -> (r: Option<WindowAction>)
        ensures
            final(self)@ == spec_unmaximize(old(self)@, label@),
            r is Some <==> spec_contains_label(old(self)@, label@),
            (r matches Option::Some(a) ==> a matches WindowAction::Unmaximize(l) && l@ == label@),
    {
        proof {
            use_type_invariant(&*self);
        }
        match find_label_index(&self.windows, &label) {
            Option::None => Option::None,
            Option::Some(i) => {
                let mut ws: Vec<WindowInstance> = Vec::new();
                core::mem::swap(&mut ws, &mut self.windows);
                let mut w = ws.remove(i);
                w.maximized = false;
                ws.insert(i, w);
                proof {
                    let s0 = old(self)@;
                    assert(spec_views_of(ws@) =~= s0.update(
                        i as int,
                        spec_unmaximized(s0[i as int]),
                    ));
                    lemma_update_keeps_unique(s0, i as int, spec_unmaximized(s0[i as int]));
                }
                core::mem::swap(&mut ws, &mut self.windows);
                Option::Some(WindowAction::Unmaximize(label))
            },
        }
    }

    /// Resize: a no-op success on an absent label, otherwise the entry
    /// records the new inner size and the backend must apply it.
    pub fn resize_window(&mut self, label: String, width: u32, height: u32) -> (r: Option<
        WindowAction,
    >)
        ensures
            final(self)@ == spec_resize(old(self)@, label@, width, height),
            r is Some <==> spec_contains_label(old(self)@, label@),
            (r matches Option::Some(a) ==> a matches WindowAction::Resize(l, w, h) && l@ == label@
                && w == width && h == height),
    {
        proof {
            use_type_invariant(&*self);
        }
        match find_label_index(&self.windows, &label) {
            Option::None => Option::None,
            Option::Some(i) => {
                let mut ws: Vec<WindowInstance> = Vec::new();
                core::mem::swap(&mut ws, &mut self.windows);
                let mut w = ws.remove(i);
                w.width = width;
                w.height = height;
                ws.insert(i, w);
                proof {
                    let s0 = old(self)@;
                    assert(spec_views_of(ws@) =~= s0.update(
                        i as int,
                        spec_resized(s0[i as int], width, height),
                    ));
                    lemma_update_keeps_unique(s0, i as int, spec_resized(s0[i as int], width, height));
                }
                core::mem::swap(&mut ws, &mut self.windows);
                Option::Some(WindowAction::Resize(label, width, height))
            },
        }
    }

    /// Move: a no-op success on an absent label, otherwise the entry
    /// records the new position and the backend must apply it.
    pub fn move_window(&mut self, label: String, x: i32, y: i32) -> (r: Option<WindowAction>)
        ensures
            final(self)@ == spec_move(old(self)@, label@, x, y),
            r is Some <==> spec_contains_label(old(self)@, label@),
            (r matches Option::Some(a) ==> a matches WindowAction::Move(l, ax, ay) && l@ == label@
                && ax == x && ay == y),
    {
        proof {
            use_type_invariant(&*self);
        }
        match find_label_index(&self.windows, &label) {
            Option::None => Option::None,
            Option::Some(i) => {
                let mut ws: Vec<WindowInstance> = Vec::new();
                core::mem::swap(&mut ws, &mut self.windows);
                let mut w = ws.remove(i);
                w.position = Option::Some((x, y));
                ws.insert(i, w);
                proof {
                    let s0 = old(self)@;
                    assert(spec_views_of(ws@) =~= s0.update(
                        i as int,
                        spec_moved(s0[i as int], x, y),
                    ));
                    lemma_update_keeps_unique(s0, i as int, spec_moved(s0[i as int], x, y));
                }
                core::mem::swap(&mut ws, &mut self.windows);
                Option::Some(WindowAction::Move(label, x, y))
            },
        }
    }

    /// Pin or release: a no-op success on an absent label, otherwise the
    /// entry records the new always-on-top flag and the backend must apply
    /// it.
    pub fn set_always_on_top(&mut self, label: String, always_on_top: bool) -> (r: Option<
        WindowAction,
    >)
        ensures
            final(self)@ == spec_set_always_on_top(old(self)@, label@, always_on_top),
            r is Some <==> spec_contains_label(old(self)@, label@),
            (r matches Option::Some(a) ==> a matches WindowAction::SetAlwaysOnTop(l, v) && l@
                == label@ && v == always_on_top),
    {
        proof {
            use_type_invariant(&*self);
        }
        match find_label_index(&self.windows, &label) {
            Option::None => Option::None,
            Option::Some(i) => {
                let mut ws: Vec<WindowInstance> = Vec::new();
                core::mem::swap(&mut ws, &mut self.windows);
                let mut w = ws.remove(i);
                w.always_on_top = always_on_top;
                ws.insert(i, w);
                proof {
                    let s0 = old(self)@;
                    assert(spec_views_of(ws@) =~= s0.update(
                        i as int,
                        spec_pinned(s0[i as int], always_on_top),
                    ));
                    lemma_update_keeps_unique(s0, i as int, spec_pinned(s0[i as int], always_on_top));
                }
                core::mem::swap(&mut ws, &mut self.windows);
                Option::Some(WindowAction::SetAlwaysOnTop(label, always_on_top))
            },
        }
    }
}

} // verus!
