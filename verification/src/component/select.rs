//! The single-choice dropdown: an index into its option list, kept in
//! sync with a default value.

use vstd::prelude::*;

use crate::component::multi_select::first_index_from;

verus! {

/// One option of the dropdown.
#[derive(Debug)]
pub struct SelectItemProps {
    pub value: u64,
    pub name: String,
    pub selected: bool,
    pub disabled: bool,
}

impl Clone for SelectItemProps {
    fn clone(&self) -> (r: Self)
        ensures
            r == *self,
    {
        Self {
            value: self.value,
            name: self.name.clone(),
            selected: self.selected,
            disabled: self.disabled,
        }
    }
}

/// Two options agree on every field.
pub open spec fn select_item_eq(a: SelectItemProps, b: SelectItemProps) -> bool {
    &&& a.value == b.value
    &&& a.name@ == b.name@
    &&& a.selected == b.selected
    &&& a.disabled == b.disabled
}

impl PartialEq for SelectItemProps {
    fn eq(&self, other: &Self) -> bool {
        self.value == other.value && self.name.eq(&other.name) && self.selected == other.selected
            && self.disabled == other.disabled
    }
}

impl vstd::std_specs::cmp::PartialEqSpecImpl for SelectItemProps {
    open spec fn obeys_eq_spec() -> bool {
        true
    }

    open spec fn eq_spec(&self, other: &Self) -> bool {
        select_item_eq(*self, *other)
    }
}

/// Two option strings agree, where both are given.
fn option_string_eq(a: &Option<String>, b: &Option<String>) -> (r: bool)
    ensures
        r == match (a, b) {
            (Some(x), Some(y)) => x@ == y@,
            (None, None) => true,
            _ => false,
        },
{
    match (a, b) {
        (Some(x), Some(y)) => x.eq(y),
        (None, None) => true,
        _ => false,
    }
}

impl PartialEq for SelectProperty {
    fn eq(&self, other: &Self) -> bool {
        let children_equal = {
            if self.children.len() != other.children.len() {
                false
            } else {
                let n = self.children.len();
                let mut i: usize = 0;
                let mut same = true;
                while i < n
                    invariant
                        i <= n,
                        n == self.children@.len(),
                        n == other.children@.len(),
                        same == (forall|k: int|
                            0 <= k < i ==> select_item_eq(
                                #[trigger] self.children@[k],
                                other.children@[k],
                            )),
                    decreases n - i,
                {
                    if !self.children[i].eq(&other.children[i]) {
                        same = false;
                    }
                    i = i + 1;
                }
                same
            }
        };
        children_equal && self.disabled == other.disabled && self.default == other.default
            && option_string_eq(&self.name, &other.name) && option_string_eq(
            &self.class,
            &other.class,
        )
    }
}

impl vstd::std_specs::cmp::PartialEqSpecImpl for SelectProperty {
    open spec fn obeys_eq_spec() -> bool {
        true
    }

    open spec fn eq_spec(&self, other: &Self) -> bool {
        &&& self.children@.len() == other.children@.len()
        &&& forall|k: int|
            0 <= k < self.children@.len() ==> select_item_eq(
                #[trigger] self.children@[k],
                other.children@[k],
            )
        &&& self.disabled == other.disabled
        &&& self.default == other.default
        &&& match (self.name, other.name) {
            (Some(x), Some(y)) => x@ == y@,
            (None, None) => true,
            _ => false,
        }
        &&& match (self.class, other.class) {
            (Some(x), Some(y)) => x@ == y@,
            (None, None) => true,
            _ => false,
        }
    }
}

/// What the dropdown is handed on each render.
#[derive(Debug)]
pub struct SelectProperty {
    pub children: Vec<SelectItemProps>,
    /// The value selected by default, if any.
    pub default: Option<u64>,
    pub name: Option<String>,
    pub class: Option<String>,
    pub disabled: bool,
}

/// A message the dropdown handles.
#[derive(Debug)]
pub enum SelectMessage {
    Update,
    Ignore,
    /// The user picked the option at this position.
    OnSelectIndex(usize),
}

/// The values of the options, in order.
pub open spec fn select_values(children: Seq<SelectItemProps>) -> Seq<u64> {
    children.map_values(|c: SelectItemProps| c.value)
}

/// The dropdown state: the position of the chosen option.
#[derive(Debug)]
pub struct SelectModule {
    pub selected_index: usize,
}

impl SelectModule {
    pub fn create() -> (r: Self)
        ensures
            r.selected_index == 0,
    {
        Self { selected_index: 0 }
    }

    /// One step; the result carries the value to report outward, when a
    /// real option was picked. The dropdown itself never re-renders.
    pub fn update(&mut self, props: &SelectProperty, msg: SelectMessage) -> (out: (
        bool,
        Option<u64>,
    ))
        ensures
            !out.0,
            match msg {
                SelectMessage::Update => *final(self) == *old(self) && out.1 is None,
                SelectMessage::Ignore => *final(self) == *old(self) && out.1 is None,
                SelectMessage::OnSelectIndex(index) => {
                    &&& final(self).selected_index == index
                    &&& (index < props.children@.len() ==> out.1 == Some(
                        props.children@[index as int].value,
                    ))
                    &&& (index >= props.children@.len() ==> out.1 is None)
                },
            },
    {
        match msg {
            SelectMessage::Update => (false, None),
            SelectMessage::Ignore => (false, None),
            SelectMessage::OnSelectIndex(index) => {
                self.selected_index = index;
                if index < props.children.len() {
                    (false, Some(props.children[index].value))
                } else {
                    (false, None)
                }
            },
        }
    }

    /// Align the chosen position with the default value: when a default
    /// is given and an option carries it, that option's position is
    /// taken, and the host must mirror it into the rendered element. The
    /// result is that position, when one was taken.
    pub fn set_default_prop_index(&mut self, props: &SelectProperty) -> (r: Option<usize>)
        ensures
            match props.default {
                Some(def) => {
                    let j = first_index_from(select_values(props.children@), def, 0);
                    if j < props.children@.len() {
                        &&& final(self).selected_index == j
                        &&& (r matches Some(x) && x as int == j)
                    } else {
                        &&& *final(self) == *old(self)
                        &&& r is None
                    }
                },
                None => *final(self) == *old(self) && r is None,
            },
    {
        if let Some(def) = props.default {
            let ghost vals = select_values(props.children@);
            let n = props.children.len();
            let mut i: usize = 0;
            while i < n
                invariant
                    i <= n,
                    n == props.children@.len(),
                    props.default == Some(def),
                    vals == select_values(props.children@),
                    *self == *old(self),
                    first_index_from(vals, def, 0) == first_index_from(vals, def, i as int),
                decreases n - i,
            {
                if props.children[i].value == def {
                    proof {
                        assert(vals[i as int] == def);
                        assert(first_index_from(vals, def, i as int) == i as int);
                    }
                    self.selected_index = i;
                    return Some(i);
                }
                proof {
                    assert(vals[i as int] != def);
                }
                i = i + 1;
            }
            proof {
                assert(first_index_from(vals, def, n as int) == n as int);
            }
            None
        } else {
            None
        }
    }

    /// First render: align with the default once.
    pub fn rendered(&mut self, props: &SelectProperty, first_render: bool) -> (r: Option<usize>)
        ensures
            first_render ==> match props.default {
                Some(def) => {
                    let j = first_index_from(select_values(props.children@), def, 0);
                    if j < props.children@.len() {
                        final(self).selected_index == j && (r matches Some(x) && x as int == j)
                    } else {
                        *final(self) == *old(self) && r is None
                    }
                },
                None => *final(self) == *old(self) && r is None,
            },
            !first_render ==> *final(self) == *old(self) && r is None,
    {
        if first_render {
            self.set_default_prop_index(props)
        } else {
            None
        }
    }

    /// New props arrived: re-align when the default changed.
    pub fn changed(&mut self, props: &SelectProperty, old_default: Option<u64>) -> (r: (
        bool,
        Option<usize>,
    ))
        ensures
            r.0,
            props.default == old_default ==> *final(self) == *old(self) && r.1 is None,
            props.default != old_default ==> match props.default {
                Some(def) => {
                    let j = first_index_from(select_values(props.children@), def, 0);
                    if j < props.children@.len() {
                        final(self).selected_index == j && (r.1 matches Some(x) && x as int == j)
                    } else {
                        *final(self) == *old(self) && r.1 is None
                    }
                },
                None => *final(self) == *old(self) && r.1 is None,
            },
    {
        let differs = match (&props.default, &old_default) {
            (Some(a), Some(b)) => *a != *b,
            (None, None) => false,
            _ => true,
        };
        if differs {
            let sync = self.set_default_prop_index(props);
            (true, sync)
        } else {
            (true, None)
        }
    }
}

} // verus!
