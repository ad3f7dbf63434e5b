//! The multi-selection combobox engine: filtering, keyboard navigation,
//! selection and creation events.
//!
//! The engine owns only its transient widget state (focus, the filter
//! text, the highlight index). The durable `selected` flag of each item
//! belongs to the caller: the engine proposes changes through
//! [`MultiSelectEvent`] values and is re-supplied the items on the next
//! render.
//!
//! The host reads the text input and hands its text over with each
//! keystroke message, normalizing (trimming) it at that edge if it wants
//! to; the engine takes the text as given.

use vstd::prelude::*;

use crate::util::contains_sub;
use crate::util::lower_of;
use crate::util::lowercase;
use crate::util::seq_contains;

verus! {

/// One selectable entry: an identifier, its label, and whether the caller
/// currently counts it as selected. `hovering` is display state derived
/// on each render.
#[derive(Debug)]
pub struct MultiSelectItemProps {
    pub id: u64,
    pub name: String,
    pub selected: bool,
    pub hovering: bool,
}

impl Clone for MultiSelectItemProps {
    fn clone(&self) -> (r: Self)
        ensures
            r == *self,
    {
        Self {
            id: self.id,
            name: self.name.clone(),
            selected: self.selected,
            hovering: self.hovering,
        }
    }
}

impl PartialEq for MultiSelectItemProps {
    fn eq(&self, other: &Self) -> bool {
        self.id == other.id && self.name.eq(&other.name) && self.selected == other.selected
            && self.hovering == other.hovering
    }
}

impl vstd::std_specs::cmp::PartialEqSpecImpl for MultiSelectItemProps {
    open spec fn obeys_eq_spec() -> bool {
        true
    }

    open spec fn eq_spec(&self, other: &Self) -> bool {
        &&& self.id == other.id
        &&& self.name@ == other.name@
        &&& self.selected == other.selected
        &&& self.hovering == other.hovering
    }
}

/// What the engine is handed on every render.
#[derive(Debug)]
pub struct MultiSelectProperty {
    pub children: Vec<MultiSelectItemProps>,
    /// Whether deselection is allowed (edit mode) or the widget is
    /// view-only.
    pub editing: bool,
    /// Whether a "create new entry" row may be offered.
    pub create_new: bool,
}

/// A requested new entry. The caller creates it and feeds the assigned
/// identifier back through [`MultiSelectModule::register_created`].
#[derive(Debug, Clone, PartialEq, Eq)]
pub struct MultiSelectNewItem {
    pub name: String,
}

/// What the engine reports outward. It never mutates the caller's
/// selected set itself.
#[derive(Debug, Clone, PartialEq, Eq)]
pub enum MultiSelectEvent {
    Toggle { toggle: bool, id: u64 },
    Create(MultiSelectNewItem),
    Input { text: String },
}

/// A keyboard key, reduced to what the engine distinguishes.
#[derive(Debug, Clone, Copy, PartialEq, Eq, Structural)]
pub enum Key {
    ArrowUp,
    ArrowDown,
    Enter,
    Other,
}

/// The handle of one scheduled deferred blur: the focus epoch it was
/// scheduled under. A blur fires only if no focus arrived in between.
#[derive(Debug, Clone, Copy, PartialEq, Eq, Structural)]
pub struct BlurToken {
    pub epoch: u64,
}

/// Everything the engine asks its host to do after one step.
#[derive(Debug)]
pub struct UpdateOutcome {
    /// Whether the widget must re-render.
    pub render: bool,
    /// The at most one event this step reports outward.
    pub event: Option<MultiSelectEvent>,
    /// Whether the host should move keyboard focus to the text input.
    pub focus_input: bool,
}

/// A message the host delivers to the engine.
#[derive(Debug)]
pub enum MultiSelectMessage {
    Update,
    Ignore,
    /// A deferred blur timer fired; stale tokens are ignored.
    OnUnfocus(BlurToken),
    OnFocus,
    /// The host should focus the text input.
    SetFocus,
    OnSelectItem(u64),
    OnUnselectItem(u64),
    OnCreate,
    /// The pointer hovers an item (`Some`) or the create row (`None`).
    OnHover(Option<u64>),
    OnKeyDown(Key),
    /// A key was released over the input, which now holds `text`.
    OnKeyUp(Key, String),
    OnPressEnter,
    /// The input changed to `text` by pressing `Key`.
    OnInputChange(Key, String),
}

/// The engine state.
#[derive(Debug, Clone)]
pub struct MultiSelectModule {
    /// Whether the text input has keyboard focus.
    pub is_focused: bool,
    /// Whether the dropdown list is shown.
    pub is_opened: bool,
    /// The highlighted position among the visible items; the position one
    /// past them denotes the create row.
    pub selected_index: usize,
    /// The current filter text of the input.
    pub filter_text: String,
    /// Counts focus gains, so stale deferred blurs can be recognized.
    pub focus_epoch: u64,
    /// Cleared on destroy; late callbacks then do nothing.
    pub alive: bool,
}

/// An item is visible when it is not selected and its label contains the
/// filter text as a substring, case-insensitively.
pub open spec fn item_visible(item: MultiSelectItemProps, filter: Seq<char>) -> bool {
    &&& !item.selected
    &&& (filter.len() == 0 || seq_contains(lower_of(item.name@), lower_of(filter)))
}

/// The visible items, in their given order.
pub open spec fn visible_items(items: Seq<MultiSelectItemProps>, filter: Seq<char>) -> Seq<
    MultiSelectItemProps,
>
    decreases items.len(),
{
    if items.len() == 0 {
        Seq::empty()
    } else {
        let rest = visible_items(items.drop_last(), filter);
        if item_visible(items.last(), filter) {
            rest.push(items.last())
        } else {
            rest
        }
    }
}

/// The identifiers of the visible items, in order.
pub open spec fn visible_ids(items: Seq<MultiSelectItemProps>, filter: Seq<char>) -> Seq<u64> {
    visible_items(items, filter).map_values(|it: MultiSelectItemProps| it.id)
}

/// The items the caller marked selected, in order: the chosen "pills".
pub open spec fn selected_items(items: Seq<MultiSelectItemProps>) -> Seq<MultiSelectItemProps>
    decreases items.len(),
{
    if items.len() == 0 {
        Seq::empty()
    } else {
        let rest = selected_items(items.drop_last());
        if items.last().selected {
            rest.push(items.last())
        } else {
            rest
        }
    }
}

/// The dropdown is open while focused and there is anything to show.
pub open spec fn opened_for(
    focused: bool,
    items: Seq<MultiSelectItemProps>,
    filter: Seq<char>,
) -> bool {
    focused && (items.len() > 0 || filter.len() > 0)
}

/// The create row is shown when creation is enabled and the filter text
/// is non-empty.
pub open spec fn create_shown(create_new: bool, filter: Seq<char>) -> bool {
    create_new && filter.len() > 0
}

/// Some item carries this identifier.
pub open spec fn spec_has_child(items: Seq<MultiSelectItemProps>, id: u64) -> bool {
    exists|k: int| 0 <= k < items.len() && (#[trigger] items[k]).id == id
}

/// The toggle event selecting (or deselecting) `id`, if it names an item.
pub open spec fn spec_toggle_event(
    items: Seq<MultiSelectItemProps>,
    id: u64,
    toggle: bool,
) -> Option<MultiSelectEvent> {
    if spec_has_child(items, id) {
        Some(MultiSelectEvent::Toggle { toggle, id })
    } else {
        None
    }
}

/// The first position of `id` at or after `pos`, or the length when absent.
pub open spec fn first_index_from(s: Seq<u64>, id: u64, pos: int) -> int
    decreases s.len() - pos,
{
    if pos < 0 || pos >= s.len() {
        s.len() as int
    } else if s[pos] == id {
        pos
    } else {
        first_index_from(s, id, pos + 1)
    }
}

/// The focus epoch after one more focus gain; the counter wraps.
pub open spec fn next_epoch(e: u64) -> u64 {
    if e == u64::MAX {
        0
    } else {
        (e + 1) as u64
    }
}

/// All state but the dropdown-open flag is unchanged.
pub open spec fn unchanged_core(pre: MultiSelectModule, post: MultiSelectModule) -> bool {
    &&& post.is_focused == pre.is_focused
    &&& post.selected_index == pre.selected_index
    &&& post.filter_text == pre.filter_text
    &&& post.focus_epoch == pre.focus_epoch
    &&& post.alive == pre.alive
}

/// Gaining focus: a new focus epoch, everything else untouched.
pub open spec fn post_focus(pre: MultiSelectModule, post: MultiSelectModule) -> bool {
    &&& post.is_focused == true
    &&& post.selected_index == pre.selected_index
    &&& post.filter_text == pre.filter_text
    &&& post.focus_epoch == next_epoch(pre.focus_epoch)
    &&& post.alive == pre.alive
}

/// A deferred blur fires: it applies only when no focus intervened and
/// the engine is still alive; otherwise it is a complete no-op.
pub open spec fn post_unfocus(
    pre: MultiSelectModule,
    token: BlurToken,
    post: MultiSelectModule,
) -> bool {
    if token.epoch == pre.focus_epoch && pre.alive {
        &&& post.is_focused == false
        &&& post.selected_index == 0
        &&& post.filter_text == pre.filter_text
        &&& post.focus_epoch == pre.focus_epoch
        &&& post.alive == pre.alive
    } else {
        post == pre
    }
}

/// The farthest position arrow-down may reach: the create row when it is
/// shown, else the last item.
pub open spec fn arrow_bound(count: int, with_create_row: bool) -> int {
    if with_create_row {
        count
    } else if count > 0 {
        count - 1
    } else {
        0
    }
}

/// Arrow keys move the highlight by one, clamped to the valid range;
/// other keys leave it alone.
pub open spec fn post_key_down(
    pre: MultiSelectModule,
    children: Seq<MultiSelectItemProps>,
    create_new: bool,
    key: Key,
    post: MultiSelectModule,
) -> bool {
    &&& post.is_focused == pre.is_focused
    &&& post.filter_text == pre.filter_text
    &&& post.focus_epoch == pre.focus_epoch
    &&& post.alive == pre.alive
    &&& match key {
        Key::ArrowUp => post.selected_index == if pre.selected_index == 0 {
            0int
        } else {
            pre.selected_index - 1
        },
        Key::ArrowDown => {
            let b = arrow_bound(
                visible_ids(children, pre.filter_text@).len() as int,
                create_shown(create_new, pre.filter_text@),
            );
            post.selected_index == if b > pre.selected_index {
                pre.selected_index + 1
            } else {
                b
            }
        },
        _ => post.selected_index == pre.selected_index,
    }
}

/// A keystroke that is not arrow navigation resets the highlight to the
/// top; the new text is stored and reported outward.
pub open spec fn post_input(
    pre: MultiSelectModule,
    key: Key,
    text: String,
    post: MultiSelectModule,
    ev: Option<MultiSelectEvent>,
) -> bool {
    &&& post.is_focused == pre.is_focused
    &&& post.filter_text == text
    &&& post.focus_epoch == pre.focus_epoch
    &&& post.alive == pre.alive
    &&& post.selected_index == if key == Key::ArrowUp || key == Key::ArrowDown {
        pre.selected_index as int
    } else {
        0int
    }
    &&& (ev matches Some(MultiSelectEvent::Input { text: t }) && t == text)
}

/// Creation: with creation enabled and a non-empty input, a create
/// request carrying the input text is reported and the input cleared;
/// otherwise nothing happens.
pub open spec fn post_create(
    pre: MultiSelectModule,
    create_new: bool,
    post: MultiSelectModule,
    ev: Option<MultiSelectEvent>,
) -> bool {
    if create_shown(create_new, pre.filter_text@) {
        &&& post.is_focused == pre.is_focused
        &&& post.selected_index == pre.selected_index
        &&& post.filter_text@ == Seq::<char>::empty()
        &&& post.focus_epoch == pre.focus_epoch
        &&& post.alive == pre.alive
        &&& (ev matches Some(MultiSelectEvent::Create(n)) && n.name == pre.filter_text)
    } else {
        &&& unchanged_core(pre, post)
        &&& ev is None
    }
}

/// Enter resolves the highlighted visible item into a selection toggle,
/// or, past the end of the list, acts as creation.
pub open spec fn post_press_enter(
    pre: MultiSelectModule,
    children: Seq<MultiSelectItemProps>,
    create_new: bool,
    post: MultiSelectModule,
    ev: Option<MultiSelectEvent>,
) -> bool {
    let vis = visible_ids(children, pre.filter_text@);
    if pre.selected_index < vis.len() {
        &&& unchanged_core(pre, post)
        &&& ev == Some(
            MultiSelectEvent::Toggle { toggle: true, id: vis[pre.selected_index as int] },
        )
    } else {
        post_create(pre, create_new, post, ev)
    }
}

/// Hovering an item highlights its visible position; hovering the list
/// boundary highlights the create row; unknown identifiers change nothing.
pub open spec fn post_hover(
    pre: MultiSelectModule,
    children: Seq<MultiSelectItemProps>,
    id_or_none: Option<u64>,
    post: MultiSelectModule,
) -> bool {
    let vis = visible_ids(children, pre.filter_text@);
    &&& post.is_focused == pre.is_focused
    &&& post.filter_text == pre.filter_text
    &&& post.focus_epoch == pre.focus_epoch
    &&& post.alive == pre.alive
    &&& match id_or_none {
        Some(id) => {
            let j = first_index_from(vis, id, 0);
            post.selected_index == if j < vis.len() {
                j
            } else {
                pre.selected_index as int
            }
        },
        None => post.selected_index == vis.len(),
    }
}

/// The dropdown-open flag is correctly derived from the new state.
pub open spec fn opened_recomputed(
    post: MultiSelectModule,
    children: Seq<MultiSelectItemProps>,
) -> bool {
    post.is_opened == opened_for(post.is_focused, children, post.filter_text@)
}

impl MultiSelectModule {
    /// A freshly mounted engine: unfocused, unfiltered, highlight at the
    /// top.
    pub fn create() -> (r: Self)
        ensures
            r.is_focused == false,
            r.is_opened == false,
            r.selected_index == 0,
            r.filter_text@ == Seq::<char>::empty(),
            r.focus_epoch == 0,
            r.alive == true,
    {
        Self {
            is_focused: false,
            is_opened: false,
            selected_index: 0,
            filter_text: String::new(),
            focus_epoch: 0,
            alive: true,
        }
    }

    /// Whether an item passes the current filter and is still choosable.
    pub fn filter_viewable_child(&self, item: &MultiSelectItemProps) -> (r: bool)
        ensures
            r == item_visible(*item, self.filter_text@),
    {
        if !self.filter_text.as_str().is_empty() {
            let name_lc = lowercase(item.name.as_str());
            let filter_lc = lowercase(self.filter_text.as_str());
            if !contains_sub(name_lc.as_str(), filter_lc.as_str()) {
                return false;
            }
        }
        !item.selected
    }

    /// The identifiers of the currently visible items, in order.
    pub fn visible_children(&self, props: &MultiSelectProperty) -> (r: Vec<u64>)
        ensures
            r@ == visible_ids(props.children@, self.filter_text@),
    {
        let mut r: Vec<u64> = Vec::new();
        let n = props.children.len();
        let mut i: usize = 0;
        while i < n
            invariant
                i <= n,
                n == props.children@.len(),
                r@ == visible_ids(props.children@.subrange(0, i as int), self.filter_text@),
            decreases n - i,
        {
            let item = &props.children[i];
            let ghost pre = props.children@.subrange(0, i as int);
            let ghost cur = props.children@.subrange(0, i as int + 1);
            proof {
                assert(cur.drop_last() =~= pre);
                assert(cur.last() == props.children@[i as int]);
            }
            if self.filter_viewable_child(item) {
                r.push(item.id);
                proof {
                    assert(visible_items(cur, self.filter_text@) == visible_items(
                        pre,
                        self.filter_text@,
                    ).push(props.children@[i as int]));
                    assert(r@ =~= visible_ids(cur, self.filter_text@));
                }
            } else {
                proof {
                    assert(r@ =~= visible_ids(cur, self.filter_text@));
                }
            }
            i = i + 1;
        }
        proof {
            assert(props.children@.subrange(0, n as int) =~= props.children@);
        }
        r
    }

    /// How many items the dropdown currently shows.
    pub fn viewable_children_count(&self, props: &MultiSelectProperty) -> (r: usize)
        ensures
            r as int == visible_ids(props.children@, self.filter_text@).len(),
    {
        self.visible_children(props).len()
    }

    /// The identifier under the highlight, when it sits on an item.
    pub fn get_selected_child_id(&self, props: &MultiSelectProperty) -> (r: Option<u64>)
        ensures
            ({
                let vis = visible_ids(props.children@, self.filter_text@);
                if self.selected_index < vis.len() {
                    r == Some(vis[self.selected_index as int])
                } else {
                    r is None
                }
            }),
    {
        let vis = self.visible_children(props);
        if self.selected_index < vis.len() {
            Some(vis[self.selected_index])
        } else {
            None
        }
    }

    /// The visible position of an identifier, if it is visible.
    pub fn get_child_index_by_id(&self, id: u64, props: &MultiSelectProperty) -> (r: Option<
        usize,
    >)
        ensures
            ({
                let vis = visible_ids(props.children@, self.filter_text@);
                let j = first_index_from(vis, id, 0);
                &&& (j < vis.len() ==> (r matches Some(x) && x as int == j))
                &&& (j >= vis.len() ==> r is None)
            }),
    {
        let vis = self.visible_children(props);
        let n = vis.len();
        let mut i: usize = 0;
        while i < n
            invariant
                i <= n,
                n == vis@.len(),
                vis@ == visible_ids(props.children@, self.filter_text@),
                first_index_from(vis@, id, 0) == first_index_from(vis@, id, i as int),
            decreases n - i,
        {
            if vis[i] == id {
                proof {
                    assert(first_index_from(vis@, id, i as int) == i as int);
                }
                return Some(i);
            }
            i = i + 1;
        }
        proof {
            assert(first_index_from(vis@, id, n as int) == n as int);
        }
        None
    }

    /// The text of the create row: the input text, when creation is
    /// enabled and something was typed.
    pub fn create_button_value(&self, props: &MultiSelectProperty) -> (r: Option<String>)
        ensures
            if create_shown(props.create_new, self.filter_text@) {
                r matches Some(t) && t == self.filter_text
            } else {
                r is None
            },
    {
        if props.create_new && !self.filter_text.as_str().is_empty() {
            Some(self.filter_text.clone())
        } else {
            None
        }
    }

    /// Hand out a token for a deferred blur; the host schedules the blur
    /// timer and delivers the token back when it fires.
    pub fn schedule_blur(&self) -> (t: BlurToken)
        ensures
            t.epoch == self.focus_epoch,
    {
        BlurToken { epoch: self.focus_epoch }
    }

    /// New props arrived: keyboard focus must return to the input while
    /// the engine counts itself focused.
    pub fn changed(&self) -> (r: (bool, bool))
        ensures
            r.0,
            r.1 == self.is_focused,
    {
        (true, self.is_focused)
    }

    /// The engine is unmounted; later callbacks become no-ops.
    pub fn destroy(&mut self)
        ensures
            final(self).alive == false,
            final(self).is_focused == old(self).is_focused,
            final(self).is_opened == old(self).is_opened,
            final(self).selected_index == old(self).selected_index,
            final(self).filter_text == old(self).filter_text,
            final(self).focus_epoch == old(self).focus_epoch,
    {
        self.alive = false;
    }

    /// The caller resolved an earlier create request with a fresh
    /// identifier. Selecting it is proposed, unless the engine was
    /// destroyed in the meantime: then nothing happens.
    pub fn register_created(&self, props: &MultiSelectProperty, id: u64) -> (ev: Option<
        MultiSelectEvent,
    >)
        ensures
            self.alive ==> ev == spec_toggle_event(props.children@, id, true),
            !self.alive ==> ev is None,
    {
        if !self.alive {
            return None;
        }
        self.select_event(props, id, true)
    }

    /// The toggle event for `id`, if some item carries it.
    fn select_event(&self, props: &MultiSelectProperty, id: u64, toggle: bool) -> (ev: Option<
        MultiSelectEvent,
    >)
        ensures
            ev == spec_toggle_event(props.children@, id, toggle),
    {
        let n = props.children.len();
        let mut i: usize = 0;
        while i < n
            invariant
                i <= n,
                n == props.children@.len(),
                forall|k: int| 0 <= k < i ==> (#[trigger] props.children@[k]).id != id,
            decreases n - i,
        {
            if props.children[i].id == id {
                return Some(MultiSelectEvent::Toggle { toggle, id });
            }
            i = i + 1;
        }
        None
    }

    /// One step of the engine: apply `msg` against the current `props`,
    /// and say what the host must do. The dropdown-open flag is re-derived
    /// on every step that is not an early no-op.
    pub fn update(&mut self, props: &MultiSelectProperty, msg: MultiSelectMessage) -> (out:
        UpdateOutcome)
        ensures
            match msg {
                MultiSelectMessage::Update => {
                    &&& unchanged_core(*old(self), *final(self))
                    &&& opened_recomputed(*final(self), props.children@)
                    &&& out.render
                    &&& out.event is None
                    &&& !out.focus_input
                },
                MultiSelectMessage::Ignore => {
                    &&& *final(self) == *old(self)
                    &&& !out.render
                    &&& out.event is None
                    &&& !out.focus_input
                },
                MultiSelectMessage::OnFocus => {
                    &&& post_focus(*old(self), *final(self))
                    &&& opened_recomputed(*final(self), props.children@)
                    &&& out.render
                    &&& out.event is None
                    &&& !out.focus_input
                },
                MultiSelectMessage::OnUnfocus(token) => {
                    &&& post_unfocus(*old(self), token, *final(self))
                    &&& (token.epoch == old(self).focus_epoch && old(self).alive ==> {
                        &&& opened_recomputed(*final(self), props.children@)
                        &&& out.render
                    })
                    &&& (!(token.epoch == old(self).focus_epoch && old(self).alive)
                        ==> !out.render)
                    &&& out.event is None
                    &&& !out.focus_input
                },
                MultiSelectMessage::SetFocus => {
                    &&& unchanged_core(*old(self), *final(self))
                    &&& opened_recomputed(*final(self), props.children@)
                    &&& out.render
                    &&& out.event is None
                    &&& out.focus_input
                },
                MultiSelectMessage::OnSelectItem(id) => {
                    &&& unchanged_core(*old(self), *final(self))
                    &&& opened_recomputed(*final(self), props.children@)
                    &&& out.render
                    &&& out.event == spec_toggle_event(props.children@, id, true)
                    &&& !out.focus_input
                },
                MultiSelectMessage::OnUnselectItem(id) => {
                    &&& (props.editing ==> {
                        &&& unchanged_core(*old(self), *final(self))
                        &&& opened_recomputed(*final(self), props.children@)
                        &&& out.render
                        &&& out.event == spec_toggle_event(props.children@, id, false)
                    })
                    &&& (!props.editing ==> {
                        &&& *final(self) == *old(self)
                        &&& !out.render
                        &&& out.event is None
                    })
                    &&& !out.focus_input
                },
                MultiSelectMessage::OnCreate => {
                    &&& post_create(*old(self), props.create_new, *final(self), out.event)
                    &&& opened_recomputed(*final(self), props.children@)
                    &&& out.render
                    &&& !out.focus_input
                },
                MultiSelectMessage::OnHover(id_or_none) => {
                    &&& post_hover(*old(self), props.children@, id_or_none, *final(self))
                    &&& opened_recomputed(*final(self), props.children@)
                    &&& out.render
                    &&& out.event is None
                    &&& !out.focus_input
                },
                MultiSelectMessage::OnKeyDown(key) => {
                    &&& post_key_down(
                        *old(self),
                        props.children@,
                        props.create_new,
                        key,
                        *final(self),
                    )
                    &&& opened_recomputed(*final(self), props.children@)
                    &&& out.render
                    &&& out.event is None
                    &&& !out.focus_input
                },
                MultiSelectMessage::OnKeyUp(key, text) => {
                    &&& (key == Key::Enter ==> post_press_enter(
                        *old(self),
                        props.children@,
                        props.create_new,
                        *final(self),
                        out.event,
                    ))
                    &&& (key != Key::Enter ==> post_input(
                        *old(self),
                        key,
                        text,
                        *final(self),
                        out.event,
                    ))
                    &&& opened_recomputed(*final(self), props.children@)
                    &&& out.render
                    &&& !out.focus_input
                },
                MultiSelectMessage::OnPressEnter => {
                    &&& post_press_enter(
                        *old(self),
                        props.children@,
                        props.create_new,
                        *final(self),
                        out.event,
                    )
                    &&& opened_recomputed(*final(self), props.children@)
                    &&& out.render
                    &&& !out.focus_input
                },
                MultiSelectMessage::OnInputChange(key, text) => {
                    &&& post_input(*old(self), key, text, *final(self), out.event)
                    &&& opened_recomputed(*final(self), props.children@)
                    &&& out.render
                    &&& !out.focus_input
                },
            },
    {
        let mut event: Option<MultiSelectEvent> = None;
        let mut focus_input = false;

        match msg {
            MultiSelectMessage::Update => {},
            MultiSelectMessage::Ignore => {
                return UpdateOutcome { render: false, event: None, focus_input: false };
            },

            MultiSelectMessage::OnHover(id_or_none) => {
                match id_or_none {
                    Some(id) => {
                        if let Some(index) = self.get_child_index_by_id(id, props) {
                            self.selected_index = index;
                        }
                    },
                    None => {
                        self.selected_index = self.viewable_children_count(props);
                    },
                }
            },

            MultiSelectMessage::OnInputChange(key, text) => {
                event = self.input_change_step(key, text);
            },

            MultiSelectMessage::OnPressEnter => {
                event = self.press_enter_step(props);
            },

            MultiSelectMessage::OnKeyDown(key) => {
                match key {
                    Key::ArrowUp => {
                        if self.selected_index != 0 {
                            self.selected_index = self.selected_index - 1;
                        }
                    },
                    Key::ArrowDown => {
                        let child_count = self.viewable_children_count(props);
                        // Without a create row the last reachable position
                        // is one before the count.
                        let child_count = if self.create_button_value(props).is_some() {
                            child_count
                        } else if child_count > 0 {
                            child_count - 1
                        } else {
                            0
                        };
                        if child_count > self.selected_index {
                            self.selected_index = self.selected_index + 1;
                        } else {
                            self.selected_index = child_count;
                        }
                    },
                    _ => {},
                }
            },

            MultiSelectMessage::OnKeyUp(key, text) => {
                if key == Key::Enter {
                    event = self.press_enter_step(props);
                } else {
                    event = self.input_change_step(key, text);
                }
            },

            MultiSelectMessage::OnSelectItem(id) => {
                event = self.select_event(props, id, true);
            },

            MultiSelectMessage::OnUnselectItem(id) => {
                // Deselection clicks are inert while the widget is
                // view-only.
                if !props.editing {
                    return UpdateOutcome { render: false, event: None, focus_input: false };
                }
                event = self.select_event(props, id, false);
            },

            MultiSelectMessage::OnCreate => {
                event = self.create_step(props);
            },

            MultiSelectMessage::SetFocus => {
                focus_input = true;
            },

            MultiSelectMessage::OnFocus => {
                self.is_focused = true;
                self.focus_epoch = if self.focus_epoch == u64::MAX {
                    0
                } else {
                    self.focus_epoch + 1
                };
            },

            MultiSelectMessage::OnUnfocus(token) => {
                // Apply the deferred blur only when no focus arrived in
                // the meantime and the engine still lives.
                if token.epoch != self.focus_epoch || !self.alive {
                    return UpdateOutcome { render: false, event: None, focus_input: false };
                }
                self.is_focused = false;
                self.selected_index = 0;
            },
        }

        self.is_opened = self.is_focused && (props.children.len() > 0
            || !self.filter_text.as_str().is_empty());

        UpdateOutcome { render: true, event, focus_input }
    }

    /// A keystroke landed in the input: store the text, reset the
    /// highlight unless the key was arrow navigation, and report the
    /// change outward.
    fn input_change_step(&mut self, key: Key, text: String) -> (ev: Option<MultiSelectEvent>)
        ensures
            post_input(*old(self), key, text, *final(self), ev),
            final(self).is_opened == old(self).is_opened,
    {
        if key != Key::ArrowUp && key != Key::ArrowDown {
            self.selected_index = 0;
        }
        self.filter_text = text.clone();
        Some(MultiSelectEvent::Input { text })
    }

    /// The create action: request a new entry named after the input and
    /// clear the input, when creation is enabled and something was typed.
    fn create_step(&mut self, props: &MultiSelectProperty) -> (ev: Option<MultiSelectEvent>)
        ensures
            post_create(*old(self), props.create_new, *final(self), ev),
            final(self).is_opened == old(self).is_opened,
    {
        if props.create_new && !self.filter_text.as_str().is_empty() {
            let name = self.filter_text.clone();
            self.filter_text = String::new();
            Some(MultiSelectEvent::Create(MultiSelectNewItem { name }))
        } else {
            None
        }
    }

    /// Enter: select the highlighted visible item, or create past the
    /// end of the list.
    fn press_enter_step(&mut self, props: &MultiSelectProperty) -> (ev: Option<MultiSelectEvent>)
        ensures
            post_press_enter(*old(self), props.children@, props.create_new, *final(self), ev),
            final(self).is_opened == old(self).is_opened,
    {
        let child_count = self.viewable_children_count(props);
        if self.selected_index < child_count {
            // The highlight sits on a real item, so there is one to resolve.
            let id = self.get_selected_child_id(props).unwrap();
            Some(MultiSelectEvent::Toggle { toggle: true, id })
        } else {
            self.create_step(props)
        }
    }
}

/// The dropdown rows as rendered: the visible items, with `hovering` set
/// exactly on the highlighted position.
pub open spec fn spec_dropdown_rows(
    children: Seq<MultiSelectItemProps>,
    filter: Seq<char>,
    highlight: int,
) -> Seq<MultiSelectItemProps> {
    visible_items(children, filter).map(
        |i: int, it: MultiSelectItemProps|
            MultiSelectItemProps {
                id: it.id,
                name: it.name,
                selected: it.selected,
                hovering: i == highlight,
            },
    )
}

/// Everything the edit-mode rendering derives from the state and props.
#[derive(Debug)]
pub struct EditingView {
    /// The chosen "pills" above the input.
    pub chosen: Vec<MultiSelectItemProps>,
    /// The dropdown rows, highlight applied.
    pub dropdown: Vec<MultiSelectItemProps>,
    /// The create row's text, when the row is shown.
    pub create_row: Option<String>,
    /// Whether the highlight sits on the create row.
    pub create_row_hovering: bool,
    pub focused: bool,
    pub opened: bool,
}

/// What the widget renders: the full editor, or only the chosen pills in
/// view-only mode.
#[derive(Debug)]
pub enum ViewPlan {
    Editing(EditingView),
    Viewing(Vec<MultiSelectItemProps>),
}

/// The items the caller marked selected: the chosen pills.
pub fn selected_children(props: &MultiSelectProperty) -> (r: Vec<MultiSelectItemProps>)
    ensures
        r@ == selected_items(props.children@),
{
    let mut r: Vec<MultiSelectItemProps> = Vec::new();
    let n = props.children.len();
    let mut i: usize = 0;
    while i < n
        invariant
            i <= n,
            n == props.children@.len(),
            r@ == selected_items(props.children@.subrange(0, i as int)),
        decreases n - i,
    {
        let ghost pre = props.children@.subrange(0, i as int);
        let ghost cur = props.children@.subrange(0, i as int + 1);
        proof {
            assert(cur.drop_last() =~= pre);
            assert(cur.last() == props.children@[i as int]);
        }
        if props.children[i].selected {
            r.push(props.children[i].clone());
        }
        i = i + 1;
    }
    proof {
        assert(props.children@.subrange(0, n as int) =~= props.children@);
    }
    r
}

impl MultiSelectModule {
    /// The dropdown rows this state renders, highlight applied.
    pub fn dropdown_rows(&self, props: &MultiSelectProperty) -> (r: Vec<MultiSelectItemProps>)
        ensures
            r@ == spec_dropdown_rows(
                props.children@,
                self.filter_text@,
                self.selected_index as int,
            ),
    {
        let mut r: Vec<MultiSelectItemProps> = Vec::new();
        let mut count: usize = 0;
        let n = props.children.len();
        let mut i: usize = 0;
        while i < n
            invariant
                i <= n,
                n == props.children@.len(),
                count <= i,
                count as int == visible_items(
                    props.children@.subrange(0, i as int),
                    self.filter_text@,
                ).len(),
                r@ == spec_dropdown_rows(
                    props.children@.subrange(0, i as int),
                    self.filter_text@,
                    self.selected_index as int,
                ),
            decreases n - i,
        {
            let ghost pre = props.children@.subrange(0, i as int);
            let ghost cur = props.children@.subrange(0, i as int + 1);
            proof {
                assert(cur.drop_last() =~= pre);
                assert(cur.last() == props.children@[i as int]);
            }
            let item = &props.children[i];
            if self.filter_viewable_child(item) {
                let mut row = item.clone();
                row.hovering = count == self.selected_index;
                r.push(row);
                count = count + 1;
                proof {
                    assert(r@ =~= spec_dropdown_rows(
                        cur,
                        self.filter_text@,
                        self.selected_index as int,
                    ));
                }
            } else {
                proof {
                    assert(r@ =~= spec_dropdown_rows(
                        cur,
                        self.filter_text@,
                        self.selected_index as int,
                    ));
                }
            }
            i = i + 1;
        }
        proof {
            assert(props.children@.subrange(0, n as int) =~= props.children@);
        }
        r
    }

    /// Everything edit-mode rendering needs, derived afresh from state
    /// and props.
    pub fn display_editing(&self, props: &MultiSelectProperty) -> (r: EditingView)
        ensures
            r.chosen@ == selected_items(props.children@),
            r.dropdown@ == spec_dropdown_rows(
                props.children@,
                self.filter_text@,
                self.selected_index as int,
            ),
            if create_shown(props.create_new, self.filter_text@) {
                r.create_row matches Some(t) && t == self.filter_text
            } else {
                r.create_row is None
            },
            r.create_row_hovering == (visible_ids(props.children@, self.filter_text@).len()
                == self.selected_index),
            r.focused == self.is_focused,
            r.opened == self.is_opened,
    {
        let count = self.viewable_children_count(props);
        EditingView {
            chosen: selected_children(props),
            dropdown: self.dropdown_rows(props),
            create_row: self.create_button_value(props),
            create_row_hovering: count == self.selected_index,
            focused: self.is_focused,
            opened: self.is_opened,
        }
    }

    /// What view-only rendering shows: just the chosen pills.
    pub fn display_viewing(&self, props: &MultiSelectProperty) -> (r: Vec<MultiSelectItemProps>)
        ensures
            r@ == selected_items(props.children@),
    {
        selected_children(props)
    }

    /// The render plan: the editor in edit mode, the pills alone otherwise.
    pub fn view(&self, props: &MultiSelectProperty) -> (r: ViewPlan)
        ensures
            props.editing ==> (r matches ViewPlan::Editing(v) && v.chosen@ == selected_items(
                props.children@,
            ) && v.dropdown@ == spec_dropdown_rows(
                props.children@,
                self.filter_text@,
                self.selected_index as int,
            )),
            !props.editing ==> (r matches ViewPlan::Viewing(v) && v@ == selected_items(
                props.children@,
            )),
    {
        if props.editing {
            ViewPlan::Editing(self.display_editing(props))
        } else {
            ViewPlan::Viewing(self.display_viewing(props))
        }
    }
}

/// After any arrow key, the highlight stays within the closed range from
/// zero to the number of visible items, whatever that number is.
pub proof fn lemma_arrow_keeps_highlight_bounded(
    pre: MultiSelectModule,
    children: Seq<MultiSelectItemProps>,
    create_new: bool,
    key: Key,
    post: MultiSelectModule,
)
    requires
        post_key_down(pre, children, create_new, key, post),
        pre.selected_index <= visible_ids(children, pre.filter_text@).len(),
    ensures
        0 <= post.selected_index <= visible_ids(children, post.filter_text@).len(),
{
}

/// A non-arrow keystroke in the input always resets the highlight to the
/// top of the list.
pub proof fn lemma_input_resets_highlight(
    pre: MultiSelectModule,
    key: Key,
    text: String,
    post: MultiSelectModule,
    ev: Option<MultiSelectEvent>,
)
    requires
        post_input(pre, key, text, post, ev),
        key != Key::ArrowUp,
        key != Key::ArrowDown,
    ensures
        post.selected_index == 0,
{
}

/// A deferred blur scheduled before a focus gain is discarded when its
/// timer finally fires: the engine stays focused, nothing changes.
pub proof fn lemma_refocus_discards_deferred_blur(
    s0: MultiSelectModule,
    token: BlurToken,
    s1: MultiSelectModule,
    s2: MultiSelectModule,
)
    requires
        token.epoch == s0.focus_epoch,
        post_focus(s0, s1),
        post_unfocus(s1, token, s2),
    ensures
        s2 == s1,
        s1.is_focused,
{
    assert(next_epoch(s0.focus_epoch) != s0.focus_epoch);
}

} // verus!
