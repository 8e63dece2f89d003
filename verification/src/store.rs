//! The named-input resolver and the input-state store it queries.
//!
//! A store owns the current values of named logical inputs: "axes", whose
//! value is numeric, and "actions", whose value is a boolean. The resolver
//! translates an optional input name into a value, degrading to the neutral
//! value (a zero axis, an inactive action) when the name is absent or the
//! store has no binding for it.

use vstd::prelude::*;

verus! {

/// The value of an axis: the bit pattern of a 32-bit binary floating-point
/// number, carried through unchanged. The neutral value, reported for an
/// absent or unbound axis, is `0`, the bits of positive zero.
#[derive(Clone, Copy, Debug, PartialEq, Eq, Structural)]
pub struct AxisValue {
    /// The bit pattern of the axis reading.
    pub bits: u32,
}

/// The neutral axis value: the bits of positive zero.
pub open spec fn neutral_axis() -> AxisValue {
    AxisValue { bits: 0 }
}

/// An input-state store: an external, queryable object owning the current
/// values of named axes and actions. The resolver needs only these two
/// read-only queries; how bindings are configured and aggregated is the
/// store's own affair.
pub trait InputStateStore {
    /// The named axes the store currently holds, each with its value.
    spec fn axes(&self) -> Map<Seq<char>, AxisValue>;

    /// The named actions the store currently holds, each with its state.
    spec fn actions(&self) -> Map<Seq<char>, bool>;

    /// The value of the named axis, or `None` if the store has no axis of
    /// that name.
    fn axis_value(&self, name: &String) -> (r: Option<AxisValue>)
        ensures
            r == (if self.axes().contains_key(name@) {
                Some(self.axes()[name@])
            } else {
                None::<AxisValue>
            }),
    ;

    /// Whether the named action is currently down, or `None` if the store
    /// has no action of that name.
    fn action_is_down(&self, name: &String) -> (r: Option<bool>)
        ensures
            r == (if self.actions().contains_key(name@) {
                Some(self.actions()[name@])
            } else {
                None::<bool>
            }),
    ;
}

/// The axis value an optional name resolves to against the given axes: the
/// stored value when the name is present and bound, the neutral value
/// otherwise.
pub open spec fn spec_resolve_axis(name: Option<Seq<char>>, axes: Map<Seq<char>, AxisValue>) -> AxisValue {
    match name {
        Some(n) => if axes.contains_key(n) {
            axes[n]
        } else {
            neutral_axis()
        },
        None => neutral_axis(),
    }
}

/// The action state an optional name resolves to against the given actions:
/// the stored state when the name is present and bound, `false` otherwise.
pub open spec fn spec_resolve_action(name: Option<Seq<char>>, actions: Map<Seq<char>, bool>) -> bool {
    match name {
        Some(n) => actions.contains_key(n) && actions[n],
        None => false,
    }
}

/// The view of an optional input name: its character sequence, if present.
pub open spec fn name_view(name: Option<String>) -> Option<Seq<char>> {
    match name {
        Some(n) => Some(n@),
        None => None,
    }
}

/// Gets the input axis value from the store.
/// If the name is `None`, it will return the neutral value of the axis.
#[must_use]
pub fn get_input_axis_simple<S: InputStateStore>(name: &Option<String>, input: &S) -> (r:
    AxisValue)
    ensures
        r == spec_resolve_axis(name_view(*name), input.axes()),
{
    match name {
        Some(n) => match input.axis_value(n) {
            Some(value) => value,
            None => AxisValue { bits: 0 },
        },
        None => AxisValue { bits: 0 },
    }
}

/// Gets the action active status from the store.
/// If the action name is `None`, it will default to `false`.
#[must_use]
pub fn get_action_simple<S: InputStateStore>(name: &Option<String>, input: &S) -> (r: bool)
    ensures
        r == spec_resolve_action(name_view(*name), input.actions()),
{
    match name {
        Some(n) => match input.action_is_down(n) {
            Some(down) => down,
            None => false,
        },
        None => false,
    }
}

/// An absent name resolves to the neutral axis value, whatever the axes
/// hold; a present name resolves to the neutral value when the axes hold no
/// binding for it, and to the stored value, unchanged, when they do.
pub proof fn lemma_resolve_axis(name: Option<Seq<char>>, axes: Map<Seq<char>, AxisValue>)
    ensures
        name is None ==> spec_resolve_axis(name, axes) == neutral_axis(),
        name matches Some(n) ==> spec_resolve_axis(name, axes) == (if axes.contains_key(n) {
            axes[n]
        } else {
            neutral_axis()
        }),
{
}

/// An absent name resolves to an inactive action, whatever the actions
/// hold; a present name resolves to inactive when the actions hold no
/// binding for it, and to the stored state, unchanged, when they do.
pub proof fn lemma_resolve_action(name: Option<Seq<char>>, actions: Map<Seq<char>, bool>)
    ensures
        name is None ==> !spec_resolve_action(name, actions),
        name matches Some(n) ==> spec_resolve_action(name, actions) == (if actions.contains_key(n) {
            actions[n]
        } else {
            false
        }),
{
}

/// Resolution is a function of the name and the store's contents alone: any
/// two results that meet a resolver's contract on one and the same query
/// are equal, so a second call with the same inputs yields an identical
/// result.
pub proof fn lemma_resolution_deterministic(
    name: Option<Seq<char>>,
    axes: Map<Seq<char>, AxisValue>,
    actions: Map<Seq<char>, bool>,
    axis1: AxisValue,
    axis2: AxisValue,
    action1: bool,
    action2: bool,
)
    requires
        axis1 == spec_resolve_axis(name, axes),
        axis2 == spec_resolve_axis(name, axes),
        action1 == spec_resolve_action(name, actions),
        action2 == spec_resolve_action(name, actions),
    ensures
        axis1 == axis2,
        action1 == action2,
{
}

/// The map that a sequence of name-value pairs holds, a later pair
/// overriding an earlier one of the same name.
pub open spec fn pairs_to_map<V>(pairs: Seq<(String, V)>) -> Map<Seq<char>, V>
    decreases pairs.len(),
{
    if pairs.len() == 0 {
        Map::empty()
    } else {
        pairs_to_map(pairs.drop_last()).insert(pairs.last().0@, pairs.last().1)
    }
}

/// Whether the names of a sequence of name-value pairs are pairwise
/// distinct.
pub open spec fn keys_distinct<V>(pairs: Seq<(String, V)>) -> bool {
    forall|i: int, j: int| 0 <= i < j < pairs.len() ==> pairs[i].0@ != pairs[j].0@
}

/// A name that no pair carries is not in the map the pairs hold.
proof fn lemma_pairs_to_map_absent<V>(pairs: Seq<(String, V)>, k: Seq<char>)
    requires
        forall|i: int| 0 <= i < pairs.len() ==> pairs[i].0@ != k,
    ensures
        !pairs_to_map(pairs).contains_key(k),
    decreases pairs.len(),
{
    if pairs.len() > 0 {
        assert(pairs[pairs.len() - 1].0@ != k);
        assert forall|i: int| 0 <= i < pairs.drop_last().len() implies pairs.drop_last()[i].0@
            != k by {
            assert(pairs.drop_last()[i] == pairs[i]);
        }
        lemma_pairs_to_map_absent(pairs.drop_last(), k);
    }
}

/// Dropping the last pair keeps the remaining names pairwise distinct.
proof fn lemma_keys_distinct_drop_last<V>(pairs: Seq<(String, V)>)
    requires
        keys_distinct(pairs),
        pairs.len() > 0,
    ensures
        keys_distinct(pairs.drop_last()),
{
    assert forall|i: int, j: int|
        0 <= i < j < pairs.drop_last().len() implies pairs.drop_last()[i].0@
        != pairs.drop_last()[j].0@ by {
        assert(pairs.drop_last()[i] == pairs[i]);
        assert(pairs.drop_last()[j] == pairs[j]);
    }
}

/// When the names are pairwise distinct, the map the pairs hold binds each
/// pair's name to that pair's value.
proof fn lemma_pairs_to_map_found<V>(pairs: Seq<(String, V)>, i: int)
    requires
        keys_distinct(pairs),
        0 <= i < pairs.len(),
    ensures
        pairs_to_map(pairs).contains_key(pairs[i].0@),
        pairs_to_map(pairs)[pairs[i].0@] == pairs[i].1,
    decreases pairs.len(),
{
    if i == pairs.len() - 1 {
        assert(pairs.last() == pairs[i]);
    } else {
        lemma_keys_distinct_drop_last(pairs);
        assert(pairs.drop_last()[i] == pairs[i]);
        lemma_pairs_to_map_found(pairs.drop_last(), i);
        assert(pairs.last().0@ != pairs[i].0@);
    }
}

/// Replacing the pair at `i` by one of the same name updates the map the
/// pairs hold at exactly that name, and keeps the names distinct.
proof fn lemma_pairs_to_map_update<V>(pairs: Seq<(String, V)>, i: int, p: (String, V))
    requires
        keys_distinct(pairs),
        0 <= i < pairs.len(),
        p.0@ == pairs[i].0@,
    ensures
        keys_distinct(pairs.update(i, p)),
        pairs_to_map(pairs.update(i, p)) == pairs_to_map(pairs).insert(p.0@, p.1),
    decreases pairs.len(),
{
    let updated = pairs.update(i, p);
    assert forall|a: int, b: int| 0 <= a < b < updated.len() implies updated[a].0@
        != updated[b].0@ by {
        assert(pairs[a].0@ != pairs[b].0@);
    }
    if i == pairs.len() - 1 {
        assert(updated.drop_last() =~= pairs.drop_last());
        assert(updated.last() == p);
        assert(pairs_to_map(pairs.drop_last()).insert(pairs[i].0@, pairs[i].1).insert(p.0@, p.1)
            =~= pairs_to_map(pairs.drop_last()).insert(p.0@, p.1));
    } else {
        lemma_keys_distinct_drop_last(pairs);
        assert(pairs.drop_last()[i] == pairs[i]);
        lemma_pairs_to_map_update(pairs.drop_last(), i, p);
        assert(updated.drop_last() =~= pairs.drop_last().update(i, p));
        assert(updated.last() == pairs.last());
        assert(pairs.last().0@ != p.0@);
        assert(pairs_to_map(pairs.drop_last()).insert(p.0@, p.1).insert(
            pairs.last().0@,
            pairs.last().1,
        ) =~= pairs_to_map(pairs.drop_last()).insert(pairs.last().0@, pairs.last().1).insert(
            p.0@,
            p.1,
        ));
    }
}

/// Finds the position of the pair that carries `name`, if any, by a linear
/// scan.
fn find_pair_index<V>(pairs: &Vec<(String, V)>, name: &String) -> (r: Option<usize>)
    ensures
        match r {
            Some(i) => i < pairs@.len() && pairs@[i as int].0@ == name@,
            None => forall|j: int| 0 <= j < pairs@.len() ==> pairs@[j].0@ != name@,
        },
{
    let mut i: usize = 0;
    while i < pairs.len()
        invariant
            i <= pairs@.len(),
            forall|j: int| 0 <= j < i ==> pairs@[j].0@ != name@,
        decreases pairs@.len() - i,
    {
        if pairs[i].0 == *name {
            return Some(i);
        }
        i += 1;
    }
    None
}

/// Finds the value bound to `name` among the pairs.
fn lookup_pair<V: Copy>(pairs: &Vec<(String, V)>, name: &String) -> (r: Option<V>)
    requires
        keys_distinct(pairs@),
    ensures
        r == (if pairs_to_map(pairs@).contains_key(name@) {
            Some(pairs_to_map(pairs@)[name@])
        } else {
            None::<V>
        }),
{
    match find_pair_index(pairs, name) {
        Some(i) => {
            proof {
                lemma_pairs_to_map_found(pairs@, i as int);
            }
            Some(pairs[i].1)
        },
        None => {
            proof {
                lemma_pairs_to_map_absent(pairs@, name@);
            }
            None
        },
    }
}

/// Binds `name` to `value` among the pairs: replaces the pair of that name
/// if one is there, appends a new pair otherwise.
fn set_pair<V>(pairs: &mut Vec<(String, V)>, name: String, value: V)
    requires
        keys_distinct(old(pairs)@),
    ensures
        keys_distinct(final(pairs)@),
        pairs_to_map(final(pairs)@) == pairs_to_map(old(pairs)@).insert(name@, value),
{
    let ghost orig = pairs@;
    let ghost p = (name, value);
    match find_pair_index(pairs, &name) {
        Some(i) => {
            proof {
                lemma_pairs_to_map_update(orig, i as int, p);
            }
            pairs[i] = (name, value);
        },
        None => {
            pairs.push((name, value));
            proof {
                assert forall|a: int, b: int| 0 <= a < b < pairs@.len() implies pairs@[a].0@
                    != pairs@[b].0@ by {
                    if b < orig.len() {
                        assert(pairs@[a] == orig[a]);
                        assert(pairs@[b] == orig[b]);
                    } else {
                        assert(pairs@[a] == orig[a]);
                    }
                }
                assert(pairs@.drop_last() =~= orig);
            }
        },
    }
}

/// An in-memory input-state store, holding each axis and each action under
/// its name. It serves as a reference store implementation: an enclosing
/// application fills one from whatever owns the live input state, and the
/// resolver queries it.
pub struct MapInputStore {
    axis_pairs: Vec<(String, AxisValue)>,
    action_pairs: Vec<(String, bool)>,
}

impl MapInputStore {
    /// Names are held at most once, for axes and for actions alike.
    #[verifier::type_invariant]
    spec fn well_formed(self) -> bool {
        keys_distinct(self.axis_pairs@) && keys_distinct(self.action_pairs@)
    }

    /// An empty store: no axes, no actions.
    pub fn new() -> (s: Self)
        ensures
            s.axes() == Map::<Seq<char>, AxisValue>::empty(),
            s.actions() == Map::<Seq<char>, bool>::empty(),
    {
        MapInputStore { axis_pairs: Vec::new(), action_pairs: Vec::new() }
    }

    /// Binds the named axis to the given value, replacing any previous
    /// value of that axis.
    pub fn set_axis(&mut self, name: String, value: AxisValue)
        ensures
            final(self).axes() == old(self).axes().insert(name@, value),
            final(self).actions() == old(self).actions(),
    {
        proof {
            use_type_invariant(&*self);
        }
        let mut pairs: Vec<(String, AxisValue)> = Vec::new();
        std::mem::swap(&mut pairs, &mut self.axis_pairs);
        set_pair(&mut pairs, name, value);
        self.axis_pairs = pairs;
    }

    /// Binds the named action to the given state, replacing any previous
    /// state of that action.
    pub fn set_action(&mut self, name: String, down: bool)
        ensures
            final(self).actions() == old(self).actions().insert(name@, down),
            final(self).axes() == old(self).axes(),
    {
        proof {
            use_type_invariant(&*self);
        }
        let mut pairs: Vec<(String, bool)> = Vec::new();
        std::mem::swap(&mut pairs, &mut self.action_pairs);
        set_pair(&mut pairs, name, down);
        self.action_pairs = pairs;
    }
}

impl InputStateStore for MapInputStore {
    closed spec fn axes(&self) -> Map<Seq<char>, AxisValue> {
        pairs_to_map(self.axis_pairs@)
    }

    closed spec fn actions(&self) -> Map<Seq<char>, bool> {
        pairs_to_map(self.action_pairs@)
    }

    fn axis_value(&self, name: &String) -> (r: Option<AxisValue>) {
        proof {
            use_type_invariant(self);
        }
        lookup_pair(&self.axis_pairs, name)
    }

    fn action_is_down(&self, name: &String) -> (r: Option<bool>) {
        proof {
            use_type_invariant(self);
        }
        lookup_pair(&self.action_pairs, name)
    }
}

} // verus!
