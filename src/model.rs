//! The behaviour of a generated builder: its default construction, its
//! setters and its `build` operation, over values of any type `V`.
use vstd::prelude::*;
use vstd::string::*;
use crate::plan::{DefaultValue, Extract, SetterKind, SetterPlan, SetterView};
use crate::synth::{Generated, GeneratedView};
use crate::text::str_eq;

verus! {

/// A value held for a field: one value, or a sequence for a repeated field.
pub enum Payload<V> {
    One(V),
    Many(Vec<V>),
}

pub enum PayloadView<V> {
    One(V),
    Many(Seq<V>),
}

impl<V> View for Payload<V> {
    type V = PayloadView<V>;

    open spec fn view(&self) -> PayloadView<V> {
        match self {
            Payload::One(v) => PayloadView::One(*v),
            Payload::Many(vs) => PayloadView::Many(vs@),
        }
    }
}

pub open spec fn slot_view<V>(s: Option<Payload<V>>) -> Option<PayloadView<V>> {
    match s {
        Some(p) => Some(p@),
        None => None,
    }
}

pub open spec fn slots_view<V>(s: Seq<Option<Payload<V>>>) -> Seq<Option<PayloadView<V>>> {
    s.map_values(|o: Option<Payload<V>>| slot_view(o))
}

/// The state of a generated builder: what it stores for each field.
pub struct BuilderState<V> {
    pub slots: Vec<Option<Payload<V>>>,
}

impl<V> View for BuilderState<V> {
    type V = Seq<Option<PayloadView<V>>>;

    open spec fn view(&self) -> Seq<Option<PayloadView<V>>> {
        slots_view(self.slots@)
    }
}

/// The build operation's failure: a required field was never set.
pub enum BuildError {
    MissingRequiredField(String),
}

impl BuildError {
    /// The error's message: the field's name followed by ` needed`.
    pub fn message(&self) -> (r: String)
        ensures
            r@ == self->MissingRequiredField_0@ + " needed"@,
    {
        match self {
            BuildError::MissingRequiredField(name) => name.clone().concat(" needed"),
        }
    }
}

/// The four artifacts have one entry per field.
pub open spec fn well_formed(g: GeneratedView) -> bool {
    &&& g.defaults.len() == g.struct_fields.len()
    &&& g.setters.len() == g.struct_fields.len()
    &&& g.build_fields.len() == g.struct_fields.len()
}

/// A default of `EmptySeq` starts as a present empty sequence; `Absent` as absent.
pub open spec fn default_slot<V>(d: DefaultValue) -> Option<PayloadView<V>> {
    match d {
        DefaultValue::EmptySeq => Some(PayloadView::Many(Seq::empty())),
        DefaultValue::Absent => None,
    }
}

/// The builder's state right after default construction.
pub open spec fn start_slots<V>(g: GeneratedView) -> Seq<Option<PayloadView<V>>> {
    g.defaults.map_values(|d: (Seq<char>, DefaultValue)| default_slot::<V>(d.1))
}

pub open spec fn setter_at(g: GeneratedView, field: int, k: int) -> SetterView {
    g.setters[field]->Methods_0[k]
}

/// Whether setter `k` of `field` exists and accepts `arg`: an appending
/// setter takes one value.
pub open spec fn callable<V>(g: GeneratedView, field: int, k: int, arg: PayloadView<V>) -> bool {
    &&& 0 <= field < g.setters.len()
    &&& g.setters[field] is Methods
    &&& 0 <= k < g.setters[field]->Methods_0.len()
    &&& setter_at(g, field, k).kind == SetterKind::Append ==> arg is One
}

/// A replacing setter stores its argument; an appending one pushes it onto
/// the stored sequence, or starts a sequence of it when none is stored.
pub open spec fn apply<V>(slot: Option<PayloadView<V>>, kind: SetterKind, arg: PayloadView<V>) -> Option<PayloadView<V>> {
    match kind {
        SetterKind::Replace => Some(arg),
        SetterKind::Append => match slot {
            Some(PayloadView::Many(vs)) => Some(PayloadView::Many(vs.push(arg->One_0))),
            _ => Some(PayloadView::Many(seq![arg->One_0])),
        },
    }
}

pub open spec fn call_slots<V>(
    g: GeneratedView,
    slots: Seq<Option<PayloadView<V>>>,
    field: int,
    k: int,
    arg: PayloadView<V>,
) -> Seq<Option<PayloadView<V>>> {
    slots.update(field, apply(slots[field], setter_at(g, field, k).kind, arg))
}

/// Field `j` is required and nothing is stored for it.
pub open spec fn missing<V>(g: GeneratedView, slots: Seq<Option<PayloadView<V>>>, j: int) -> bool {
    g.build_fields[j].1 == Extract::Required && slots[j] is None
}

pub open spec fn none_missing<V>(g: GeneratedView, slots: Seq<Option<PayloadView<V>>>) -> bool {
    forall|j: int| 0 <= j < slots.len() ==> !#[trigger] missing(g, slots, j)
}

/// The first missing required field is `j`.
pub open spec fn first_missing<V>(g: GeneratedView, slots: Seq<Option<PayloadView<V>>>, j: int) -> bool {
    &&& 0 <= j < slots.len()
    &&& missing(g, slots, j)
    &&& forall|i: int| 0 <= i < j ==> !#[trigger] missing(g, slots, i)
}

/// The outcome of `build`: the first missing required field fails it, by
/// name; else every field's stored value is the record's value, an optional
/// field's absence included.
pub open spec fn build_ok<V>(
    g: GeneratedView,
    slots: Seq<Option<PayloadView<V>>>,
    r: Result<Seq<Option<PayloadView<V>>>, Seq<char>>,
) -> bool {
    match r {
        Ok(vals) => none_missing(g, slots) && vals == slots,
        Err(name) => exists|j: int| first_missing(g, slots, j) && name == #[trigger] g.build_fields[j].0,
    }
}

impl<V> BuilderState<V> {
    /// The builder's default construction.
    pub fn start(g: &Generated) -> (r: BuilderState<V>)
        ensures
            r@ == start_slots::<V>(g@),
    {
        let mut slots: Vec<Option<Payload<V>>> = Vec::new();
        let mut i: usize = 0;
        while i < g.defaults.len()
            invariant
                i <= g.defaults@.len(),
                slots@.len() == i,
                g@.defaults.len() == g.defaults@.len(),
                slots_view(slots@) == start_slots::<V>(g@).subrange(0, i as int),
            decreases g.defaults@.len() - i,
        {
            let s = match g.defaults[i].value {
                DefaultValue::EmptySeq => Some(Payload::Many(Vec::new())),
                DefaultValue::Absent => None,
            };
            assert(slot_view(s) == default_slot::<V>(g@.defaults[i as int].1));
            let ghost prev = slots@;
            slots.push(s);
            proof {
                assert(slots@ == prev.push(s));
                assert forall|j: int| 0 <= j < i + 1 implies #[trigger] slots_view(slots@)[j]
                    == start_slots::<V>(g@)[j] by {
                    if j < i {
                        assert(slots_view(prev)[j] == start_slots::<V>(g@).subrange(0, i as int)[j]);
                    }
                }
                assert(slots_view(slots@) =~= start_slots::<V>(g@).subrange(0, i + 1));
            }
            i = i + 1;
        }
        proof {
            assert(start_slots::<V>(g@).subrange(0, i as int) =~= start_slots::<V>(g@));
        }
        BuilderState { slots }
    }

    /// Calls setter `k` of `field` with `arg`.
    pub fn call(&mut self, g: &Generated, field: usize, k: usize, arg: Payload<V>)
        requires
            callable(g@, field as int, k as int, arg@),
            old(self)@.len() == g@.setters.len(),
        ensures
            final(self)@ == call_slots(g@, old(self)@, field as int, k as int, arg@),
    {
        let kind = match &g.setters[field] {
            SetterPlan::Methods(ms) => ms[k].kind,
            SetterPlan::Failed(_) => {
                return;
            },
        };
        assert(kind == setter_at(g@, field as int, k as int).kind);
        let ghost before = self.slots@;
        let slot = self.slots.remove(field);
        assert(slot == before[field as int]);
        let ghost arg_view = arg@;
        let next = match kind {
            SetterKind::Replace => Some(arg),
            SetterKind::Append => {
                let x = match arg {
                    Payload::One(x) => x,
                    Payload::Many(_) => {
                        proof {
                            assert(false);
                        }
                        self.slots.insert(field, slot);
                        return;
                    },
                };
                match slot {
                    Some(Payload::Many(vs)) => {
                        let mut vs = vs;
                        let ghost vs0 = vs@;
                        vs.push(x);
                        assert(vs@ == vs0.push(x));
                        Some(Payload::Many(vs))
                    },
                    _ => {
                        let mut vs: Vec<V> = Vec::new();
                        vs.push(x);
                        assert(vs@ =~= seq![x]);
                        Some(Payload::Many(vs))
                    },
                }
            },
        };
        assert(slot_view(next) == apply(slot_view(before[field as int]), kind, arg_view));
        self.slots.insert(field, next);
        proof {
            assert(self.slots@ =~= before.update(field as int, next));
            assert(self@ =~= slots_view(before).update(field as int, slot_view(next)));
        }
    }

    /// Assembles the record: the stored values, or the first missing
    /// required field's name.
    pub fn build(self, g: &Generated) -> (r: Result<Vec<Option<Payload<V>>>, BuildError>)
        requires
            well_formed(g@),
            self@.len() == g@.build_fields.len(),
        ensures
            build_ok(
                g@,
                self@,
                match r {
                    Ok(vals) => Ok(slots_view(vals@)),
                    Err(e) => Err(e->MissingRequiredField_0@),
                },
            ),
    {
        let mut j: usize = 0;
        while j < self.slots.len()
            invariant
                j <= self@.len(),
                self@.len() == g@.build_fields.len(),
                forall|i: int| 0 <= i < j ==> !#[trigger] missing(g@, self@, i),
            decreases self@.len() - j,
        {
            if g.build_fields[j].extraction == Extract::Required && self.slots[j].is_none() {
                let e = BuildError::MissingRequiredField(g.build_fields[j].name.clone());
                proof {
                    assert(first_missing(g@, self@, j as int));
                    assert(e->MissingRequiredField_0@ == g@.build_fields[j as int].0);
                }
                return Err(e);
            }
            j = j + 1;
        }
        Ok(self.slots)
    }
}

/// The setter named `name`, as a field index and an index among that
/// field's setters.
pub fn find_setter(g: &Generated, name: &str) -> (r: Option<(usize, usize)>)
    ensures
        match r {
            Some((f, k)) => {
                &&& 0 <= f < g@.setters.len()
                &&& g@.setters[f as int] is Methods
                &&& k < g@.setters[f as int]->Methods_0.len()
                &&& setter_at(g@, f as int, k as int).method_name == name@
            },
            None => forall|f: int, k: int|
                0 <= f < g@.setters.len() && g@.setters[f] is Methods && 0 <= k
                    < g@.setters[f]->Methods_0.len() ==> #[trigger] setter_at(g@, f, k).method_name
                    != name@,
        },
{
    let mut f: usize = 0;
    while f < g.setters.len()
        invariant
            f <= g@.setters.len(),
            forall|f2: int, k: int|
                0 <= f2 < f && g@.setters[f2] is Methods && 0 <= k
                    < g@.setters[f2]->Methods_0.len() ==> #[trigger] setter_at(g@, f2, k).method_name
                    != name@,
        decreases g@.setters.len() - f,
    {
        match &g.setters[f] {
            SetterPlan::Methods(ms) => {
                let mut k: usize = 0;
                while k < ms.len()
                    invariant
                        f < g@.setters.len(),
                        g.setters@[f as int] == SetterPlan::Methods(*ms),
                        k <= ms@.len(),
                        forall|k2: int|
                            0 <= k2 < k ==> #[trigger] setter_at(g@, f as int, k2).method_name != name@,
                    decreases ms@.len() - k,
                {
                    assert(setter_at(g@, f as int, k as int) == ms@[k as int]@);
                    if str_eq(ms[k].method_name.as_str(), name) {
                        return Some((f, k));
                    }
                    k = k + 1;
                }
            },
            SetterPlan::Failed(_) => {},
        }
        f = f + 1;
    }
    None
}

} // verus!
