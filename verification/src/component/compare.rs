//! The two-column comparison popup: rows of left/right values, a chosen
//! side per row, and the submission that collects the chosen values.
//!
//! The payload each row carries for submission is an opaque type
//! parameter: the widget moves and hands out payloads, it never reads
//! into them.

use vstd::prelude::*;
use vstd::std_specs::cmp::PartialEqSpec;

verus! {

/// Which column of a row is chosen.
#[derive(Debug, Clone, Copy, PartialEq, Eq, Structural)]
pub enum SelectedSide {
    Left,
    Right,
}

impl SelectedSide {
    pub fn is_left(self) -> (r: bool)
        ensures
            r == (self is Left),
    {
        matches!(self, Self::Left)
    }

    pub fn is_right(self) -> (r: bool)
        ensures
            r == (self is Right),
    {
        !self.is_left()
    }
}

/// How a row's values are rendered.
#[derive(Debug, Clone, Copy, PartialEq, Eq, Structural)]
pub enum CompareDisplay {
    Text,
    Image,
}

/// A displayed value: one line, or a list of lines.
#[derive(Debug, Eq)]
pub enum CompareValue {
    Single(String),
    Array(Vec<String>),
}

/// Two string vectors hold the same texts.
fn vec_string_eq(a: &Vec<String>, b: &Vec<String>) -> (r: bool)
    ensures
        r == (a@.len() == b@.len() && (forall|i: int|
            0 <= i < a@.len() ==> (#[trigger] a@[i])@ == b@[i]@)),
{
    if a.len() != b.len() {
        return false;
    }
    let n = a.len();
    let mut i: usize = 0;
    while i < n
        invariant
            i <= n,
            n == a@.len(),
            n == b@.len(),
            forall|k: int| 0 <= k < i ==> (#[trigger] a@[k])@ == b@[k]@,
        decreases n - i,
    {
        if !a[i].eq(&b[i]) {
            return false;
        }
        i = i + 1;
    }
    true
}

impl PartialEq for CompareValue {
    fn eq(&self, other: &Self) -> bool {
        match (self, other) {
            (CompareValue::Single(a), CompareValue::Single(b)) => a.eq(b),
            (CompareValue::Array(a), CompareValue::Array(b)) => vec_string_eq(a, b),
            _ => false,
        }
    }
}

impl vstd::std_specs::cmp::PartialEqSpecImpl for CompareValue {
    open spec fn obeys_eq_spec() -> bool {
        true
    }

    open spec fn eq_spec(&self, other: &Self) -> bool {
        match (self, other) {
            (CompareValue::Single(a), CompareValue::Single(b)) => a@ == b@,
            (CompareValue::Array(a), CompareValue::Array(b)) => a@.len() == b@.len() && (forall|
                i: int,
            |
                0 <= i < a@.len() ==> (#[trigger] a@[i])@ == b@[i]@),
            _ => false,
        }
    }
}

impl CompareValue {
    /// The value's lines, one string slice each.
    pub fn as_vec(&self) -> (r: Vec<&str>)
        ensures
            match self {
                CompareValue::Single(v) => r@.len() == 1 && r@[0]@ == v@,
                CompareValue::Array(v) => r@.len() == v@.len() && (forall|i: int|
                    0 <= i < v@.len() ==> (#[trigger] r@[i])@ == v@[i]@),
            },
    {
        match self {
            CompareValue::Single(v) => {
                let mut r: Vec<&str> = Vec::new();
                r.push(v.as_str());
                r
            },
            CompareValue::Array(v) => {
                let mut r: Vec<&str> = Vec::new();
                let n = v.len();
                let mut i: usize = 0;
                while i < n
                    invariant
                        i <= n,
                        n == v@.len(),
                        r@.len() == i,
                        forall|k: int| 0 <= k < i ==> (#[trigger] r@[k])@ == v@[k]@,
                    decreases n - i,
                {
                    r.push(v[i].as_str());
                    i = i + 1;
                }
                r
            },
        }
    }

    /// The value's first line; an empty list falls back to a placeholder.
    pub fn as_single(&self) -> (r: &str)
        ensures
            match self {
                CompareValue::Single(v) => r@ == v@,
                CompareValue::Array(v) => if v@.len() > 0 {
                    r@ == v@[0]@
                } else {
                    r@ == "[none]"@
                },
            },
    {
        match self {
            CompareValue::Single(v) => v.as_str(),
            CompareValue::Array(v) => {
                if v.len() > 0 {
                    v[0].as_str()
                } else {
                    "[none]"
                }
            },
        }
    }
}

/// One side's entry of a row: what is displayed, and the payload that a
/// submission carries for it.
#[derive(Debug)]
pub struct MapValue<V> {
    pub display_value: CompareValue,
    pub original_value: V,
}

/// One comparison row.
#[derive(Debug)]
pub struct CompareRow<V> {
    pub display: CompareDisplay,
    pub title: String,
    pub left: Option<MapValue<V>>,
    pub right: Option<MapValue<V>>,
}

impl<V> CompareRow<V> {
    /// The payload of the chosen side, if that side has a value.
    pub fn get_side_value(&self, side: SelectedSide) -> (r: Option<&V>)
        ensures
            match side {
                SelectedSide::Left => match self.left {
                    Some(mv) => (r matches Some(x) && *x == mv.original_value),
                    None => r is None,
                },
                SelectedSide::Right => match self.right {
                    Some(mv) => (r matches Some(x) && *x == mv.original_value),
                    None => r is None,
                },
            },
    {
        match side {
            SelectedSide::Left => match &self.left {
                Some(mv) => Some(&mv.original_value),
                None => None,
            },
            SelectedSide::Right => match &self.right {
                Some(mv) => Some(&mv.original_value),
                None => None,
            },
        }
    }
}

/// The position of the first row with the given field name at or after
/// `pos`, or the length when there is none.
pub open spec fn row_key_from<V>(s: Seq<(String, CompareRow<V>)>, k: Seq<char>, pos: int) -> int
    decreases s.len() - pos,
{
    if pos < 0 || pos >= s.len() {
        s.len() as int
    } else if s[pos].0@ == k {
        pos
    } else {
        row_key_from(s, k, pos + 1)
    }
}

/// The position of the first entry with the given key at or after `pos`,
/// or the length when there is none.
pub open spec fn mv_key_from<V>(s: Seq<(String, MapValue<V>)>, k: Seq<char>, pos: int) -> int
    decreases s.len() - pos,
{
    if pos < 0 || pos >= s.len() {
        s.len() as int
    } else if s[pos].0@ == k {
        pos
    } else {
        mv_key_from(s, k, pos + 1)
    }
}

/// Take the first entry under a key out of an association list: the
/// entry's value, if any, and the list without it.
pub open spec fn remove_first_val<V>(s: Seq<(String, MapValue<V>)>, k: Seq<char>) -> (
    Option<MapValue<V>>,
    Seq<(String, MapValue<V>)>,
) {
    let i = mv_key_from(s, k, 0);
    if i < s.len() {
        (Some(s[i].1), s.remove(i))
    } else {
        (None, s)
    }
}

/// The rows a comparison compiles to: one row per display entry, each
/// consuming its field's first entry from the left and right maps.
pub open spec fn spec_compiled_rows<V>(
    displays: Seq<(String, String, CompareDisplay)>,
    left: Seq<(String, MapValue<V>)>,
    right: Seq<(String, MapValue<V>)>,
) -> Seq<(String, CompareRow<V>)>
    decreases displays.len(),
{
    if displays.len() == 0 {
        Seq::empty()
    } else {
        let d = displays[0];
        let l = remove_first_val(left, d.0@);
        let r = remove_first_val(right, d.0@);
        seq![
            (d.0, CompareRow { display: d.2, title: d.1, left: l.0, right: r.0 }),
        ] + spec_compiled_rows(displays.subrange(1, displays.len() as int), l.1, r.1)
    }
}

/// Take the first entry under `key` out of the map, if there is one.
fn remove_first_value<V>(map: &mut Vec<(String, MapValue<V>)>, key: &String) -> (r: Option<
    MapValue<V>,
>)
    ensures
        ({
            let rf = remove_first_val(old(map)@, key@);
            r == rf.0 && final(map)@ == rf.1
        }),
{
    let n = map.len();
    let mut i: usize = 0;
    while i < n
        invariant
            i <= n,
            n == map@.len(),
            map@ == old(map)@,
            mv_key_from(map@, key@, 0) == mv_key_from(map@, key@, i as int),
        decreases n - i,
    {
        if map[i].0.eq(key) {
            proof {
                assert(mv_key_from(map@, key@, i as int) == i as int);
            }
            let entry = map.remove(i);
            return Some(entry.1);
        }
        proof {
            assert(map@[i as int].0@ != key@);
        }
        i = i + 1;
    }
    proof {
        assert(mv_key_from(map@, key@, n as int) == n as int);
    }
    None
}

/// The compiled comparison: its rows, keyed by field name, in display
/// order.
#[derive(Debug)]
pub struct CompareContainer<V> {
    pub fields: Vec<(String, CompareRow<V>)>,
}

impl<V> CompareContainer<V> {
    /// Compile a comparison: one row per `(field, title, display)` entry,
    /// each consuming its field's first value from the left and right
    /// maps.
    pub fn create(
        displays: Vec<(String, String, CompareDisplay)>,
        left: Vec<(String, MapValue<V>)>,
        right: Vec<(String, MapValue<V>)>,
    ) -> (r: Self)
        ensures
            r.fields@ == spec_compiled_rows(displays@, left@, right@),
    {
        let mut left = left;
        let mut right = right;
        let ghost left0 = left@;
        let ghost right0 = right@;
        let mut compiled: Vec<(String, CompareRow<V>)> = Vec::new();
        let n = displays.len();
        let mut idx: usize = 0;
        proof {
            assert(displays@.subrange(0, n as int) =~= displays@);
            assert(spec_compiled_rows(displays@, left0, right0) =~= compiled@
                + spec_compiled_rows(displays@.subrange(0, n as int), left@, right@));
        }
        while idx < n
            invariant
                idx <= n,
                n == displays@.len(),
                spec_compiled_rows(displays@, left0, right0) == compiled@ + spec_compiled_rows(
                    displays@.subrange(idx as int, n as int),
                    left@,
                    right@,
                ),
            decreases n - idx,
        {
            let ghost rem = displays@.subrange(idx as int, n as int);
            let ghost l_in = left@;
            let ghost r_in = right@;
            let ghost old_compiled = compiled@;
            let field_name = displays[idx].0.clone();
            let title = displays[idx].1.clone();
            let display = displays[idx].2;
            let lv = remove_first_value(&mut left, &field_name);
            let rv = remove_first_value(&mut right, &field_name);
            let row = CompareRow { display, title, left: lv, right: rv };
            let entry = (field_name, row);
            let ghost eg = entry;
            compiled.push(entry);
            proof {
                assert(rem[0] == displays@[idx as int]);
                assert(rem.subrange(1, rem.len() as int) =~= displays@.subrange(
                    idx as int + 1,
                    n as int,
                ));
                assert(eg == (rem[0].0, CompareRow {
                    display: rem[0].2,
                    title: rem[0].1,
                    left: remove_first_val(l_in, rem[0].0@).0,
                    right: remove_first_val(r_in, rem[0].0@).0,
                }));
                assert(spec_compiled_rows(rem, l_in, r_in) == seq![eg] + spec_compiled_rows(
                    displays@.subrange(idx as int + 1, n as int),
                    left@,
                    right@,
                ));
                assert(old_compiled + (seq![eg] + spec_compiled_rows(
                    displays@.subrange(idx as int + 1, n as int),
                    left@,
                    right@,
                )) =~= compiled@ + spec_compiled_rows(
                    displays@.subrange(idx as int + 1, n as int),
                    left@,
                    right@,
                ));
            }
            idx = idx + 1;
        }
        proof {
            assert(spec_compiled_rows(displays@.subrange(n as int, n as int), left@, right@)
                =~= Seq::<(String, CompareRow<V>)>::empty());
        }
        Self { fields: compiled }
    }

    /// The field names of the rows, in order.
    pub fn get_field_names(&self) -> (r: Vec<String>)
        ensures
            r@.len() == self.fields@.len(),
            forall|j: int| 0 <= j < r@.len() ==> r@[j] == (#[trigger] self.fields@[j]).0,
    {
        let mut names: Vec<String> = Vec::new();
        let n = self.fields.len();
        let mut i: usize = 0;
        while i < n
            invariant
                i <= n,
                n == self.fields@.len(),
                names@.len() == i,
                forall|j: int| 0 <= j < i ==> names@[j] == (#[trigger] self.fields@[j]).0,
            decreases n - i,
        {
            names.push(self.fields[i].0.clone());
            i = i + 1;
        }
        names
    }

    /// The chosen side's payload of the first row under `field`, if both
    /// exist.
    pub fn get_field_side_value(&self, field: &str, side: SelectedSide) -> (r: Option<&V>)
        ensures
            ({
                let i = row_key_from(self.fields@, field@, 0);
                if i < self.fields@.len() {
                    let row = self.fields@[i].1;
                    match side {
                        SelectedSide::Left => match row.left {
                            Some(mv) => (r matches Some(x) && *x == mv.original_value),
                            None => r is None,
                        },
                        SelectedSide::Right => match row.right {
                            Some(mv) => (r matches Some(x) && *x == mv.original_value),
                            None => r is None,
                        },
                    }
                } else {
                    r is None
                }
            }),
    {
        let field_owned = field.to_owned();
        let n = self.fields.len();
        let mut i: usize = 0;
        while i < n
            invariant
                i <= n,
                n == self.fields@.len(),
                field_owned@ == field@,
                row_key_from(self.fields@, field@, 0) == row_key_from(
                    self.fields@,
                    field@,
                    i as int,
                ),
            decreases n - i,
        {
            if self.fields[i].0.eq(&field_owned) {
                proof {
                    assert(row_key_from(self.fields@, field@, i as int) == i as int);
                }
                return self.fields[i].1.get_side_value(side);
            }
            proof {
                assert(self.fields@[i as int].0@ != field@);
            }
            i = i + 1;
        }
        proof {
            assert(row_key_from(self.fields@, field@, n as int) == n as int);
        }
        None
    }

    /// One whole side of the comparison: each field whose chosen side has
    /// a value, with that payload, in row order.
    pub fn get_side_value_map(&self, side: SelectedSide) -> (r: Vec<(String, &V)>)
        ensures
            ({
                let m = spec_side_map(self.fields@, side);
                r@.len() == m.len() && (forall|j: int|
                    0 <= j < m.len() ==> (#[trigger] r@[j]).0 == m[j].0 && *r@[j].1 == m[j].1)
            }),
    {
        let mut map: Vec<(String, &V)> = Vec::new();
        let n = self.fields.len();
        let mut i: usize = 0;
        while i < n
            invariant
                i <= n,
                n == self.fields@.len(),
                ({
                    let m = spec_side_map(self.fields@.subrange(0, i as int), side);
                    map@.len() == m.len() && (forall|j: int|
                        0 <= j < m.len() ==> (#[trigger] map@[j]).0 == m[j].0 && *map@[j].1
                            == m[j].1)
                }),
            decreases n - i,
        {
            let ghost pre = self.fields@.subrange(0, i as int);
            let ghost cur = self.fields@.subrange(0, i as int + 1);
            proof {
                assert(cur.drop_last() =~= pre);
                assert(cur.last() == self.fields@[i as int]);
            }
            if let Some(value) = self.fields[i].1.get_side_value(side) {
                map.push((self.fields[i].0.clone(), value));
            }
            i = i + 1;
        }
        proof {
            assert(self.fields@.subrange(0, n as int) =~= self.fields@);
        }
        map
    }
}

/// One side of a comparison as a map: each field whose side has a value,
/// with the payload, in row order.
pub open spec fn spec_side_map<V>(
    fields: Seq<(String, CompareRow<V>)>,
    side: SelectedSide,
) -> Seq<(String, V)>
    decreases fields.len(),
{
    if fields.len() == 0 {
        Seq::empty()
    } else {
        let rest = spec_side_map(fields.drop_last(), side);
        let entry = fields.last();
        let side_val = match side {
            SelectedSide::Left => entry.1.left,
            SelectedSide::Right => entry.1.right,
        };
        match side_val {
            Some(mv) => rest.push((entry.0, mv.original_value)),
            None => rest,
        }
    }
}

/// Whether a comparison row is rendered, and with which values: rows
/// whose sides agree hide unless equal rows were asked for; rows with
/// only a right value show it against an empty left cell; all other rows
/// hide.
#[derive(Debug)]
pub enum RowPlan<'a> {
    Both(&'a CompareValue, &'a CompareValue),
    RightOnly(&'a CompareValue),
    Hidden,
}

/// Decide how one row renders.
pub fn display_row_plan<'a, V>(
    left: Option<&'a MapValue<V>>,
    right: Option<&'a MapValue<V>>,
    show_equal_rows: bool,
) -> (r: RowPlan<'a>)
    ensures
        match (left, right) {
            (Some(l), Some(rv)) => {
                if !l.display_value.eq_spec(&rv.display_value) || show_equal_rows {
                    (r matches RowPlan::Both(a, b) && *a == l.display_value && *b
                        == rv.display_value)
                } else {
                    r is Hidden
                }
            },
            (None, Some(rv)) => (r matches RowPlan::RightOnly(b) && *b == rv.display_value),
            _ => r is Hidden,
        },
{
    match (left, right) {
        (Some(l), Some(rv)) => {
            if l.display_value.ne(&rv.display_value) || show_equal_rows {
                RowPlan::Both(&l.display_value, &rv.display_value)
            } else {
                RowPlan::Hidden
            }
        },
        (None, Some(rv)) => RowPlan::RightOnly(&rv.display_value),
        _ => RowPlan::Hidden,
    }
}

/// A message the comparison popup handles.
#[derive(Debug)]
pub enum Msg {
    Ignore,
    OnClose,
    OnSubmit,
    SetNewSelected(String, SelectedSide),
}

/// What one step of the popup asks of its host.
#[derive(Debug, Clone, Copy, PartialEq, Eq, Structural)]
pub struct CompareOutcome {
    pub render: bool,
    /// The close callback must fire.
    pub close: bool,
    /// The host must collect [`PopupComparison::submission`] and hand it
    /// to the submit callback.
    pub submit: bool,
}

/// The chosen side per field, as an association list in field order.
#[derive(Debug)]
pub struct PopupComparison {
    pub selected: Vec<(String, SelectedSide)>,
}

/// The position of the first choice under a key at or after `pos`, or the
/// length when there is none.
pub open spec fn sel_key_from(s: Seq<(String, SelectedSide)>, k: Seq<char>, pos: int) -> int
    decreases s.len() - pos,
{
    if pos < 0 || pos >= s.len() {
        s.len() as int
    } else if s[pos].0@ == k {
        pos
    } else {
        sel_key_from(s, k, pos + 1)
    }
}

/// Record a choice: the first entry under the key takes the new side; a
/// missing key is appended.
pub open spec fn sel_set(
    s: Seq<(String, SelectedSide)>,
    k: String,
    v: SelectedSide,
) -> Seq<(String, SelectedSide)> {
    let i = sel_key_from(s, k@, 0);
    if i < s.len() {
        s.update(i, (s[i].0, v))
    } else {
        s.push((k, v))
    }
}

/// Every field of the comparison, mapped to the left side.
pub open spec fn all_left<V>(fields: Seq<(String, CompareRow<V>)>) -> Seq<(String, SelectedSide)> {
    fields.map_values(|f: (String, CompareRow<V>)| (f.0, SelectedSide::Left))
}

impl PopupComparison {
    /// A fresh popup chooses the left side of every row.
    pub fn create<V>(compare: &CompareContainer<V>) -> (r: Self)
        ensures
            r.selected@ == all_left(compare.fields@),
    {
        Self { selected: Self::left_selection(compare) }
    }

    /// New props arrived: reset every row to its left side.
    pub fn changed<V>(&mut self, compare: &CompareContainer<V>)
        ensures
            final(self).selected@ == all_left(compare.fields@),
    {
        self.selected = Self::left_selection(compare);
    }

    fn left_selection<V>(compare: &CompareContainer<V>) -> (r: Vec<(String, SelectedSide)>)
        ensures
            r@ == all_left(compare.fields@),
    {
        let mut r: Vec<(String, SelectedSide)> = Vec::new();
        let n = compare.fields.len();
        let mut i: usize = 0;
        while i < n
            invariant
                i <= n,
                n == compare.fields@.len(),
                r@.len() == i,
                forall|j: int|
                    0 <= j < i ==> #[trigger] r@[j] == (compare.fields@[j].0, SelectedSide::Left),
            decreases n - i,
        {
            r.push((compare.fields[i].0.clone(), SelectedSide::Left));
            i = i + 1;
        }
        proof {
            assert(r@ =~= all_left(compare.fields@));
        }
        r
    }

    /// The chosen side of a field; unknown fields default to the left.
    pub fn side_for(&self, field: &str) -> (r: SelectedSide)
        ensures
            ({
                let i = sel_key_from(self.selected@, field@, 0);
                if i < self.selected@.len() {
                    r == self.selected@[i].1
                } else {
                    r == SelectedSide::Left
                }
            }),
    {
        let field_owned = field.to_owned();
        let n = self.selected.len();
        let mut i: usize = 0;
        while i < n
            invariant
                i <= n,
                n == self.selected@.len(),
                field_owned@ == field@,
                sel_key_from(self.selected@, field@, 0) == sel_key_from(
                    self.selected@,
                    field@,
                    i as int,
                ),
            decreases n - i,
        {
            if self.selected[i].0.eq(&field_owned) {
                proof {
                    assert(sel_key_from(self.selected@, field@, i as int) == i as int);
                }
                return self.selected[i].1;
            }
            proof {
                assert(self.selected@[i as int].0@ != field@);
            }
            i = i + 1;
        }
        proof {
            assert(sel_key_from(self.selected@, field@, n as int) == n as int);
        }
        SelectedSide::Left
    }

    /// The user picked a side for a field.
    pub fn set_new_selected(&mut self, field: String, side: SelectedSide)
        ensures
            final(self).selected@ == sel_set(old(self).selected@, field, side),
    {
        let n = self.selected.len();
        let mut i: usize = 0;
        while i < n
            invariant
                i <= n,
                n == self.selected@.len(),
                self.selected@ == old(self).selected@,
                sel_key_from(self.selected@, field@, 0) == sel_key_from(
                    self.selected@,
                    field@,
                    i as int,
                ),
            decreases n - i,
        {
            if self.selected[i].0.eq(&field) {
                proof {
                    assert(sel_key_from(self.selected@, field@, i as int) == i as int);
                }
                let name = self.selected[i].0.clone();
                self.selected.set(i, (name, side));
                return ;
            }
            proof {
                assert(self.selected@[i as int].0@ != field@);
            }
            i = i + 1;
        }
        proof {
            assert(sel_key_from(self.selected@, field@, n as int) == n as int);
        }
        self.selected.push((field, side));
    }

    /// One step of the popup: recording a choice is the only state
    /// change; closing and submitting are relayed to the host.
    pub fn update(&mut self, msg: Msg) -> (out: CompareOutcome)
        ensures
            match msg {
                Msg::Ignore => final(self).selected == old(self).selected && out
                    == (CompareOutcome { render: false, close: false, submit: false }),
                Msg::OnClose => final(self).selected == old(self).selected && out
                    == (CompareOutcome { render: true, close: true, submit: false }),
                Msg::OnSubmit => final(self).selected == old(self).selected && out
                    == (CompareOutcome { render: true, close: false, submit: true }),
                Msg::SetNewSelected(field, side) => final(self).selected@ == sel_set(
                    old(self).selected@,
                    field,
                    side,
                ) && out == (CompareOutcome { render: true, close: false, submit: false }),
            },
    {
        match msg {
            Msg::Ignore => CompareOutcome { render: false, close: false, submit: false },
            Msg::OnClose => CompareOutcome { render: true, close: true, submit: false },
            Msg::OnSubmit => CompareOutcome { render: true, close: false, submit: true },
            Msg::SetNewSelected(field, side) => {
                self.set_new_selected(field, side);
                CompareOutcome { render: true, close: false, submit: false }
            },
        }
    }

    /// Collect the submission: for each field, the payload of its chosen
    /// side, in choice order, fields without one skipped.
    pub fn submission<'a, V>(&self, compare: &'a CompareContainer<V>) -> (r: Vec<(String, &'a V)>)
        ensures
            ({
                let m = spec_submission(self.selected@, compare.fields@);
                r@.len() == m.len() && (forall|j: int|
                    0 <= j < m.len() ==> (#[trigger] r@[j]).0 == m[j].0 && *r@[j].1 == m[j].1)
            }),
    {
        let mut map: Vec<(String, &V)> = Vec::new();
        let n = self.selected.len();
        let mut i: usize = 0;
        while i < n
            invariant
                i <= n,
                n == self.selected@.len(),
                ({
                    let m = spec_submission(self.selected@.subrange(0, i as int), compare.fields@);
                    map@.len() == m.len() && (forall|j: int|
                        0 <= j < m.len() ==> (#[trigger] map@[j]).0 == m[j].0 && *map@[j].1
                            == m[j].1)
                }),
            decreases n - i,
        {
            let ghost pre = self.selected@.subrange(0, i as int);
            let ghost cur = self.selected@.subrange(0, i as int + 1);
            proof {
                assert(cur.drop_last() =~= pre);
                assert(cur.last() == self.selected@[i as int]);
            }
            let entry = &self.selected[i];
            if let Some(value) = compare.get_field_side_value(entry.0.as_str(), entry.1) {
                map.push((entry.0.clone(), value));
            }
            i = i + 1;
        }
        proof {
            assert(self.selected@.subrange(0, n as int) =~= self.selected@);
        }
        map
    }
}

/// A submission: for each chosen `(field, side)` in order, the first
/// matching row's payload on that side, when there is one.
pub open spec fn spec_submission<V>(
    sel: Seq<(String, SelectedSide)>,
    fields: Seq<(String, CompareRow<V>)>,
) -> Seq<(String, V)>
    decreases sel.len(),
{
    if sel.len() == 0 {
        Seq::empty()
    } else {
        let rest = spec_submission(sel.drop_last(), fields);
        let entry = sel.last();
        let i = row_key_from(fields, entry.0@, 0);
        if i < fields.len() {
            let row = fields[i].1;
            let side_val = match entry.1 {
                SelectedSide::Left => row.left,
                SelectedSide::Right => row.right,
            };
            match side_val {
                Some(mv) => rest.push((entry.0, mv.original_value)),
                None => rest,
            }
        } else {
            rest
        }
    }
}

} // verus!
