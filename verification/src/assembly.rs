//! What the generated builder does when it runs, as a small machine: one
//! slot per field, setters that store or append, and a finishing step that
//! insists on every required field.

use vstd::prelude::*;
use vstd::string::*;
use crate::builder::{section_line_spec, setter_spec, Section, NO_TUPLE_STRUCTS, ONLY_STRUCTS};
use crate::diagnostic::{unsupported, unsupported_spec, Diagnostic, DiagnosticView};
use crate::model::{views, Declaration, DeclarationView, NamedField, NamedFieldView};
use crate::shape::{classify_all, classify_all_spec, FieldShape, FieldShapeView};
use crate::text::is_text;

verus! {

/// What the builder holds for one field.
#[derive(Debug, PartialEq, Eq)]
pub enum Slot<T> {
    /// At most one value: unset, or the value last stored.
    Single(Option<T>),
    /// The elements appended so far, in order.
    Many(Vec<T>),
}

/// The mathematical value of a [`Slot`].
pub enum SlotView<T> {
    Single(Option<T>),
    Many(Seq<T>),
}

impl<T> View for Slot<T> {
    type V = SlotView<T>;

    open spec fn view(&self) -> SlotView<T> {
        match self {
            Slot::Single(value) => SlotView::Single(*value),
            Slot::Many(items) => SlotView::Many(items@),
        }
    }
}

/// The failure of the finishing step: a required field was never set.
#[derive(Clone, Debug, PartialEq, Eq)]
pub struct MissingField {
    /// The name of the first required field, in declaration order, that is
    /// unset.
    pub field: String,
}

impl MissingField {
    /// The failure in words.
    pub fn message(&self) -> (s: String)
        ensures
            s@ == self.field@ + " field is missing"@,
    {
        let mut s = self.field.clone();
        s.append(" field is missing");
        s
    }
}

/// Whether the finishing step insists on a field of this shape.
pub open spec fn is_required(shape: FieldShapeView) -> bool {
    shape is Plain || shape is PhantomMarker
}

/// The slot of a field of this shape in a fresh builder: an empty sequence
/// for a repeated field, and unset for any other.
pub open spec fn empty_slot<T>(shape: FieldShapeView) -> SlotView<T> {
    if shape is Repeated {
        SlotView::Many(Seq::empty())
    } else {
        SlotView::Single(None)
    }
}

/// The state of a fresh builder.
pub open spec fn initial_spec<T>(shapes: Seq<FieldShapeView>) -> Seq<SlotView<T>> {
    Seq::new(shapes.len(), |i: int| empty_slot(shapes[i]))
}

/// A slot after its setter has run with `value`.
pub open spec fn store_spec<T>(slot: SlotView<T>, value: T) -> SlotView<T> {
    match slot {
        SlotView::Single(_) => SlotView::Single(Some(value)),
        SlotView::Many(items) => SlotView::Many(items.push(value)),
    }
}

/// The state after the setter of field `target` has run with `value`.
pub open spec fn call_spec<T>(state: Seq<SlotView<T>>, target: int, value: T) -> Seq<SlotView<T>> {
    if 0 <= target < state.len() {
        state.update(target, store_spec(state[target], value))
    } else {
        state
    }
}

/// The state after a run of setter calls, each given by the field it
/// belongs to and the value passed.
pub open spec fn run_spec<T>(state: Seq<SlotView<T>>, calls: Seq<(int, T)>) -> Seq<SlotView<T>>
    decreases calls.len(),
{
    if calls.len() == 0 {
        state
    } else {
        call_spec(run_spec(state, calls.drop_last()), calls.last().0, calls.last().1)
    }
}

/// Whether a slot is that of a required field and unset.
pub open spec fn is_missing<T>(shape: FieldShapeView, slot: SlotView<T>) -> bool {
    is_required(shape) && slot == SlotView::<T>::Single(None)
}

/// The first field at or after `start` that is required and unset.
pub open spec fn first_missing_from<T>(
    shapes: Seq<FieldShapeView>,
    state: Seq<SlotView<T>>,
    start: int,
) -> Option<int>
    decreases shapes.len() - start,
{
    if start < 0 || start >= shapes.len() {
        None
    } else if is_missing(shapes[start], state[start]) {
        Some(start)
    } else {
        first_missing_from(shapes, state, start + 1)
    }
}

/// What the finishing step yields: the name of the first required field
/// that is unset, or else every slot as it stands.
pub open spec fn finish_spec<T>(
    fields: Seq<NamedFieldView>,
    shapes: Seq<FieldShapeView>,
    state: Seq<SlotView<T>>,
) -> Result<Seq<SlotView<T>>, Seq<char>> {
    match first_missing_from(shapes, state, 0) {
        Some(i) => Err(fields[i].ident),
        None => Ok(state),
    }
}

/// The name of a field's setter: the `each` name of a repeated field, and
/// the field's own name for any other.
pub open spec fn setter_name_spec(field: NamedFieldView, shape: FieldShapeView) -> Seq<char> {
    match shape {
        FieldShapeView::Repeated(_, each) => each,
        _ => field.ident,
    }
}

/// The type of the value that a field's setter takes: the element type of a
/// repeated field, the inner type of an optional one, and the declared type
/// of any other.
pub open spec fn setter_param_spec(field: NamedFieldView, shape: FieldShapeView) -> Seq<char> {
    match shape {
        FieldShapeView::Plain(ty) => ty,
        FieldShapeView::PhantomMarker(_) => field.ty.text,
        FieldShapeView::Optional(inner) => inner,
        FieldShapeView::Repeated(inner, _) => inner,
    }
}

/// The first field at or after `start` whose setter is named `name`.
pub open spec fn setter_target_from(
    fields: Seq<NamedFieldView>,
    shapes: Seq<FieldShapeView>,
    name: Seq<char>,
    start: int,
) -> Option<int>
    decreases fields.len() - start,
{
    if start < 0 || start >= fields.len() {
        None
    } else if setter_name_spec(fields[start], shapes[start]) == name {
        Some(start)
    } else {
        setter_target_from(fields, shapes, name, start + 1)
    }
}

/// The field that a setter named `name` belongs to, if there is such a
/// setter.
pub open spec fn setter_target_spec(
    fields: Seq<NamedFieldView>,
    shapes: Seq<FieldShapeView>,
    name: Seq<char>,
) -> Option<int> {
    setter_target_from(fields, shapes, name, 0)
}

/// A builder at work on the fields of one declaration.
pub struct Assembly<'a, T> {
    pub fields: &'a Vec<NamedField>,
    pub shapes: Vec<FieldShape>,
    pub slots: Vec<Slot<T>>,
}

impl<'a, T: Copy> Assembly<'a, T> {
    /// One shape and one slot per field, and a sequence in the slot of every
    /// repeated field and of no other.
    pub open spec fn wf(&self) -> bool {
        &&& self.shapes@.len() == self.fields@.len()
        &&& self.slots@.len() == self.fields@.len()
        &&& forall|i: int|
            0 <= i < self.slots@.len() ==> ((#[trigger] self.slots@[i]) is Many
                <==> self.shapes@[i] is Repeated)
    }

    /// The fields that the builder is for.
    pub open spec fn field_views(&self) -> Seq<NamedFieldView> {
        views(self.fields@)
    }

    /// The shapes of those fields.
    pub open spec fn shape_views(&self) -> Seq<FieldShapeView> {
        views(self.shapes@)
    }

    /// What the slots hold.
    pub open spec fn state(&self) -> Seq<SlotView<T>> {
        views(self.slots@)
    }

    /// Finds the field that the setter named `name` belongs to.
    pub fn setter_target(&self, name: &str) -> (r: Option<usize>)
        requires
            self.wf(),
        ensures
            match r {
                Some(i) => i < self.fields@.len() && setter_target_spec(
                    self.field_views(),
                    self.shape_views(),
                    name@,
                ) == Some(i as int),
                None => setter_target_spec(self.field_views(), self.shape_views(), name@) is None,
            },
    {
        let mut i: usize = 0;
        while i < self.fields.len()
            invariant
                self.wf(),
                i <= self.fields@.len(),
                setter_target_spec(self.field_views(), self.shape_views(), name@)
                    == setter_target_from(
                    self.field_views(),
                    self.shape_views(),
                    name@,
                    i as int,
                ),
            decreases self.fields@.len() - i,
        {
            assert(self.field_views()[i as int] == self.fields@[i as int]@);
            assert(self.shape_views()[i as int] == self.shapes@[i as int]@);
            let named = match &self.shapes[i] {
                FieldShape::Repeated(_, each) => is_text(each, name),
                _ => is_text(&self.fields[i].ident, name),
            };
            if named {
                return Some(i);
            }
            i = i + 1;
        }
        None
    }

    /// Runs the setter named `setter` with `value`: stores the value in the
    /// slot of a plain or optional field, appends it to that of a repeated
    /// one. Tells whether there is such a setter; where there is none,
    /// nothing changes.
    pub fn set(&mut self, setter: &str, value: T) -> (found: bool)
        requires
            old(self).wf(),
        ensures
            final(self).wf(),
            final(self).fields == old(self).fields,
            final(self).shapes == old(self).shapes,
            found == setter_target_spec(
                old(self).field_views(),
                old(self).shape_views(),
                setter@,
            ).is_some(),
            match setter_target_spec(old(self).field_views(), old(self).shape_views(), setter@) {
                Some(i) => final(self).state() == call_spec(old(self).state(), i, value),
                None => final(self).state() == old(self).state(),
            },
    {
        match self.setter_target(setter) {
            Some(i) => {
                let slot = match &self.slots[i] {
                    Slot::Single(_) => Slot::Single(Some(value)),
                    Slot::Many(items) => {
                        let mut longer = copy_items(items);
                        longer.push(value);
                        Slot::Many(longer)
                    },
                };
                self.slots.set(i, slot);
                proof {
                    assert(self.state() =~= call_spec(old(self).state(), i as int, value));
                }
                true
            },
            None => false,
        }
    }

    /// The finishing step: fails with the first required field, in
    /// declaration order, that is unset, and else hands out what each slot
    /// holds. An optional field may be unset and a repeated one empty.
    pub fn build(&self) -> (r: Result<Vec<Slot<T>>, MissingField>)
        requires
            self.wf(),
        ensures
            match r {
                Ok(values) => finish_spec(self.field_views(), self.shape_views(), self.state())
                    == Ok::<Seq<SlotView<T>>, Seq<char>>(views(values@)),
                Err(e) => finish_spec(self.field_views(), self.shape_views(), self.state())
                    == Err::<Seq<SlotView<T>>, Seq<char>>(e.field@),
            },
    {
        let mut values: Vec<Slot<T>> = Vec::new();
        let mut i: usize = 0;
        while i < self.slots.len()
            invariant
                self.wf(),
                i <= self.slots@.len(),
                values@.len() == i,
                forall|k: int| 0 <= k < i ==> (#[trigger] values@[k])@ == self.slots@[k]@,
                first_missing_from(self.shape_views(), self.state(), 0) == first_missing_from(
                    self.shape_views(),
                    self.state(),
                    i as int,
                ),
            decreases self.slots@.len() - i,
        {
            assert(self.field_views()[i as int] == self.fields@[i as int]@);
            assert(self.shape_views()[i as int] == self.shapes@[i as int]@);
            assert(self.state()[i as int] == self.slots@[i as int]@);
            let required = match &self.shapes[i] {
                FieldShape::Plain(_) | FieldShape::PhantomMarker(_) => true,
                _ => false,
            };
            match &self.slots[i] {
                Slot::Single(None) => {
                    if required {
                        return Err(MissingField { field: self.fields[i].ident.clone() });
                    }
                    values.push(Slot::Single(None));
                },
                Slot::Single(Some(value)) => {
                    values.push(Slot::Single(Some(*value)));
                },
                Slot::Many(items) => {
                    values.push(Slot::Many(copy_items(items)));
                },
            }
            i = i + 1;
        }
        proof {
            assert(views(values@) =~= self.state());
        }
        Ok(values)
    }
}

/// Copies a run of values.
pub fn copy_items<T: Copy>(items: &Vec<T>) -> (copy: Vec<T>)
    ensures
        copy@ == items@,
{
    let mut copy: Vec<T> = Vec::new();
    let mut i: usize = 0;
    while i < items.len()
        invariant
            i <= items.len(),
            copy@ == items@.subrange(0, i as int),
        decreases items.len() - i,
    {
        copy.push(items[i]);
        proof {
            assert(copy@ =~= items@.subrange(0, i + 1));
        }
        i = i + 1;
    }
    proof {
        assert(items@.subrange(0, items@.len() as int) =~= items@);
    }
    copy
}

/// What the factory yields for `input`: the diagnostic with which the
/// generator refuses the declaration, or the shapes of its fields.
pub open spec fn builder_spec(input: DeclarationView) -> Result<
    Seq<FieldShapeView>,
    DiagnosticView,
> {
    match unsupported_spec(input.shape, NO_TUPLE_STRUCTS@, ONLY_STRUCTS@) {
        Some(d) => Err(d),
        None => classify_all_spec(input.fields, input.fields.len() as int),
    }
}

/// The factory: a fresh builder for `input`, with every single slot unset
/// and every sequence empty. It refuses what the generator refuses, with the
/// same diagnostic.
pub fn builder<'a, T: Copy>(input: &'a Declaration) -> (r: Result<Assembly<'a, T>, Diagnostic>)
    ensures
        match r {
            Ok(assembly) => {
                &&& assembly.wf()
                &&& assembly.fields == &input.fields
                &&& builder_spec(input@) == Ok::<Seq<FieldShapeView>, DiagnosticView>(
                    assembly.shape_views(),
                )
                &&& assembly.state() == initial_spec::<T>(assembly.shape_views())
            },
            Err(d) => builder_spec(input@) == Err::<Seq<FieldShapeView>, DiagnosticView>(d@),
        },
{
    if let Some(d) = unsupported(input.shape, NO_TUPLE_STRUCTS, ONLY_STRUCTS) {
        return Err(d);
    }
    let shapes = match classify_all(&input.fields) {
        Ok(shapes) => shapes,
        Err(d) => {
            return Err(d);
        },
    };
    let mut slots: Vec<Slot<T>> = Vec::new();
    let mut i: usize = 0;
    while i < shapes.len()
        invariant
            i <= shapes.len(),
            slots@.len() == i,
            forall|k: int| 0 <= k < i ==> (#[trigger] slots@[k])@ == empty_slot::<T>(shapes@[k]@),
        decreases shapes.len() - i,
    {
        let slot = match &shapes[i] {
            FieldShape::Repeated(_, _) => Slot::Many(Vec::new()),
            _ => Slot::Single(None),
        };
        slots.push(slot);
        i = i + 1;
    }
    let assembly = Assembly { fields: &input.fields, shapes, slots };
    proof {
        assert(assembly.state() =~= initial_spec::<T>(assembly.shape_views()));
    }
    Ok(assembly)
}

/// Whether some call in `calls` is to the setter of field `target`.
pub open spec fn is_called<T>(calls: Seq<(int, T)>, target: int) -> bool {
    exists|k: int| 0 <= k < calls.len() && (#[trigger] calls[k]).0 == target
}

/// The value passed by the last call to the setter of field `target`.
pub open spec fn last_value_spec<T>(calls: Seq<(int, T)>, target: int) -> Option<T>
    decreases calls.len(),
{
    if calls.len() == 0 {
        None
    } else if calls.last().0 == target {
        Some(calls.last().1)
    } else {
        last_value_spec(calls.drop_last(), target)
    }
}

/// The values passed to the setter of field `target`, in call order.
pub open spec fn values_spec<T>(calls: Seq<(int, T)>, target: int) -> Seq<T>
    decreases calls.len(),
{
    if calls.len() == 0 {
        Seq::empty()
    } else if calls.last().0 == target {
        values_spec(calls.drop_last(), target).push(calls.last().1)
    } else {
        values_spec(calls.drop_last(), target)
    }
}

/// Whether every required field has had its setter called.
pub open spec fn all_required_called<T>(shapes: Seq<FieldShapeView>, calls: Seq<(int, T)>) -> bool {
    forall|j: int|
        0 <= j < shapes.len() && is_required(#[trigger] shapes[j]) ==> is_called(calls, j)
}

/// A setter has been called exactly where a last value was passed to it.
pub proof fn lemma_called_has_last<T>(calls: Seq<(int, T)>, target: int)
    ensures
        is_called(calls, target) <==> last_value_spec(calls, target) is Some,
    decreases calls.len(),
{
    if calls.len() > 0 {
        let front = calls.drop_last();
        lemma_called_has_last(front, target);
        if calls.last().0 == target {
            assert(calls[calls.len() - 1].0 == target);
        } else if is_called(calls, target) {
            let k = choose|k: int| 0 <= k < calls.len() && (#[trigger] calls[k]).0 == target;
            assert(front[k].0 == target);
        } else if is_called(front, target) {
            let k = choose|k: int| 0 <= k < front.len() && (#[trigger] front[k]).0 == target;
            assert(calls[k].0 == target);
        }
    }
}

/// A setter that was never called has been passed no values.
pub proof fn lemma_uncalled_has_none<T>(calls: Seq<(int, T)>, target: int)
    requires
        !is_called(calls, target),
    ensures
        values_spec(calls, target) == Seq::<T>::empty(),
    decreases calls.len(),
{
    if calls.len() > 0 {
        let front = calls.drop_last();
        assert(calls[calls.len() - 1].0 != target);
        if is_called(front, target) {
            let k = choose|k: int| 0 <= k < front.len() && (#[trigger] front[k]).0 == target;
            assert(calls[k].0 == target);
        }
        lemma_uncalled_has_none(front, target);
    }
}

/// What a fresh builder holds for each field after a run of calls: for a
/// repeated field every value passed, in call order; for any other the
/// value passed last, if there was one.
pub proof fn lemma_run<T>(shapes: Seq<FieldShapeView>, calls: Seq<(int, T)>)
    ensures
        run_spec(initial_spec::<T>(shapes), calls).len() == shapes.len(),
        forall|i: int|
            0 <= i < shapes.len() ==> #[trigger] run_spec(initial_spec::<T>(shapes), calls)[i]
                == if shapes[i] is Repeated {
                SlotView::Many(values_spec(calls, i))
            } else {
                SlotView::Single(last_value_spec(calls, i))
            },
    decreases calls.len(),
{
    if calls.len() > 0 {
        lemma_run(shapes, calls.drop_last());
    }
}

/// The finishing step fails exactly where some field is required and
/// unset, and then with such a field before which no other is.
pub proof fn lemma_first_missing<T>(shapes: Seq<FieldShapeView>, state: Seq<SlotView<T>>, start: int)
    requires
        0 <= start,
    ensures
        match first_missing_from(shapes, state, start) {
            Some(i) => {
                &&& start <= i < shapes.len()
                &&& is_missing(shapes[i], state[i])
                &&& forall|j: int| start <= j < i ==> !is_missing(shapes[j], #[trigger] state[j])
            },
            None => forall|j: int|
                start <= j < shapes.len() ==> !is_missing(shapes[j], #[trigger] state[j]),
        },
    decreases shapes.len() - start,
{
    if start < shapes.len() && !is_missing(shapes[start], state[start]) {
        lemma_first_missing(shapes, state, start + 1);
    }
}

/// The finishing step succeeds on a fresh builder after a run of calls
/// exactly where every required field has had its setter called.
pub proof fn lemma_finish<T>(fields: Seq<NamedFieldView>, shapes: Seq<FieldShapeView>, calls: Seq<(int, T)>)
    ensures
        finish_spec(fields, shapes, run_spec(initial_spec::<T>(shapes), calls)) is Ok
            <==> all_required_called(shapes, calls),
{
    let state = run_spec(initial_spec::<T>(shapes), calls);
    lemma_run(shapes, calls);
    lemma_first_missing(shapes, state, 0);
    assert forall|j: int| 0 <= j < shapes.len() implies (is_missing(shapes[j], #[trigger] state[j])
        <==> is_required(shapes[j]) && !is_called(calls, j)) by {
        lemma_called_has_last(calls, j);
    }
    if all_required_called(shapes, calls) {
        assert(first_missing_from(shapes, state, 0) is None);
    } else {
        let j = choose|j: int|
            0 <= j < shapes.len() && is_required(#[trigger] shapes[j]) && !is_called(calls, j);
        assert(is_missing(shapes[j], state[j]));
    }
}

/// For a struct with only plain fields, the finishing step of its builder
/// succeeds if and only if every setter was called at least once, and each
/// field of what it produces is the value last passed to that field's
/// setter.
pub proof fn law_plain_fields<T>(input: DeclarationView, shapes: Seq<FieldShapeView>, calls: Seq<(int, T)>)
    requires
        builder_spec(input) == Ok::<Seq<FieldShapeView>, DiagnosticView>(shapes),
        forall|i: int| 0 <= i < shapes.len() ==> (#[trigger] shapes[i]) is Plain,
    ensures
        ({
            let finished = finish_spec(
                input.fields,
                shapes,
                run_spec(initial_spec::<T>(shapes), calls),
            );
            &&& finished is Ok <==> forall|i: int|
                0 <= i < shapes.len() ==> #[trigger] is_called(calls, i)
            &&& finished matches Ok(values) ==> values.len() == shapes.len() && forall|i: int|
                0 <= i < shapes.len() ==> last_value_spec(calls, i) is Some && #[trigger] values[i]
                    == SlotView::Single(last_value_spec(calls, i))
        }),
{
    lemma_run(shapes, calls);
    lemma_finish(input.fields, shapes, calls);
    assert forall|i: int| 0 <= i < shapes.len() implies (is_called(calls, i) <==> last_value_spec(
        calls,
        i,
    ) is Some) by {
        lemma_called_has_last(calls, i);
    }
    let state = run_spec(initial_spec::<T>(shapes), calls);
    if all_required_called(shapes, calls) {
        assert forall|i: int| 0 <= i < shapes.len() implies #[trigger] is_called(calls, i) by {
            assert(is_required(shapes[i]));
        }
        assert(finish_spec(input.fields, shapes, state) == Ok::<Seq<SlotView<T>>, Seq<char>>(
            state,
        ));
        assert forall|i: int| 0 <= i < shapes.len() implies last_value_spec(calls, i) is Some
            && #[trigger] state[i] == SlotView::Single(last_value_spec(calls, i)) by {
            assert(is_called(calls, i));
        }
    }
    if forall|i: int| 0 <= i < shapes.len() ==> #[trigger] is_called(calls, i) {
        assert forall|j: int|
            0 <= j < shapes.len() && is_required(#[trigger] shapes[j]) implies is_called(
            calls,
            j,
        ) by {}
    }
}

/// For a struct with an optional field, a builder on which that field's
/// setter was never called still finishes, given that the required fields
/// were set, and the field is absent in what it produces. The field itself
/// is never the one reported as missing.
pub proof fn law_optional_field<T>(
    input: DeclarationView,
    shapes: Seq<FieldShapeView>,
    calls: Seq<(int, T)>,
    i: int,
)
    requires
        builder_spec(input) == Ok::<Seq<FieldShapeView>, DiagnosticView>(shapes),
        0 <= i < shapes.len(),
        shapes[i] is Optional,
        !is_called(calls, i),
    ensures
        ({
            let state = run_spec(initial_spec::<T>(shapes), calls);
            let finished = finish_spec(input.fields, shapes, state);
            &&& first_missing_from(shapes, state, 0) != Some(i)
            &&& finished is Ok <==> all_required_called(shapes, calls)
            &&& finished matches Ok(values) ==> values[i] == SlotView::<T>::Single(None)
        }),
{
    let state = run_spec(initial_spec::<T>(shapes), calls);
    lemma_run(shapes, calls);
    lemma_finish(input.fields, shapes, calls);
    lemma_first_missing(shapes, state, 0);
    lemma_called_has_last(calls, i);
    assert(state[i] == SlotView::<T>::Single(None));
}

/// For a struct with a repeated field, the field of what the builder
/// produces is the sequence of exactly the values passed to the per-element
/// setter, in call order: as many as there were calls, and none where the
/// setter was never called. A repeated field is never reported as missing,
/// so the finishing step succeeds wherever the required fields were set.
pub proof fn law_repeated_field<T>(
    input: DeclarationView,
    shapes: Seq<FieldShapeView>,
    calls: Seq<(int, T)>,
    i: int,
)
    requires
        builder_spec(input) == Ok::<Seq<FieldShapeView>, DiagnosticView>(shapes),
        0 <= i < shapes.len(),
        shapes[i] is Repeated,
    ensures
        ({
            let state = run_spec(initial_spec::<T>(shapes), calls);
            let finished = finish_spec(input.fields, shapes, state);
            &&& first_missing_from(shapes, state, 0) != Some(i)
            &&& finished is Ok <==> all_required_called(shapes, calls)
            &&& finished matches Ok(values) ==> values[i] == SlotView::Many(values_spec(calls, i))
            &&& !is_called(calls, i) ==> values_spec(calls, i) == Seq::<T>::empty()
        }),
{
    let state = run_spec(initial_spec::<T>(shapes), calls);
    lemma_run(shapes, calls);
    lemma_finish(input.fields, shapes, calls);
    lemma_first_missing(shapes, state, 0);
    if !is_called(calls, i) {
        lemma_uncalled_has_none(calls, i);
    }
}

/// The values passed to one setter by a run of calls of that setter alone
/// are the values of the run, one for one.
pub proof fn law_repeated_calls_in_order<T>(values: Seq<T>, i: int)
    ensures
        values_spec(Seq::new(values.len(), |k: int| (i, values[k])), i) == values,
    decreases values.len(),
{
    let calls = Seq::new(values.len(), |k: int| (i, values[k]));
    if values.len() > 0 {
        let front = values.drop_last();
        law_repeated_calls_in_order(front, i);
        assert(calls.drop_last() =~= Seq::new(front.len(), |k: int| (i, front[k])));
        assert(values_spec(calls, i) =~= values);
    } else {
        assert(values_spec(calls, i) =~= values);
    }
}

/// The generated source gives every field exactly one setter, whatever its
/// shape: it bears the name and takes the type that the machine gives it, and
/// it appends for a repeated field and stores for any other. A repeated
/// field whose `each` name is its own name has that one setter too.
pub proof fn law_one_setter_per_field(field: NamedFieldView, shape: FieldShapeView)
    ensures
        section_line_spec(Section::Setter, field, shape) + section_line_spec(
            Section::EachSetter,
            field,
            shape,
        ) == setter_spec(
            setter_name_spec(field, shape),
            setter_param_spec(field, shape),
            field.ident,
            if shape is Repeated {
                ".push("@
            } else {
                " = Some("@
            },
            ");"@,
        ),
{
    let stores = section_line_spec(Section::Setter, field, shape);
    let appends = section_line_spec(Section::EachSetter, field, shape);
    assert(stores + Seq::<char>::empty() =~= stores);
    assert(Seq::<char>::empty() + appends =~= appends);
}

/// The generated source starts and finishes as the machine does: the
/// factory gives a repeated field an empty sequence and any other field
/// nothing, and the finishing step insists on exactly the required fields.
pub proof fn law_source_as_the_machine(field: NamedFieldView, shape: FieldShapeView)
    ensures
        section_line_spec(Section::Default, field, shape) == "            "@ + field.ident
            + if empty_slot::<int>(shape) is Many {
            ": std::vec::Vec::new(),\n"@
        } else {
            ": std::option::Option::None,\n"@
        },
        section_line_spec(Section::Clause, field, shape) == if is_required(shape) {
            "            "@ + field.ident + ": self."@ + field.ident
                + ".clone().ok_or(format!(\"{} field is missing\", stringify!("@ + field.ident
                + ")))?,\n"@
        } else {
            "            "@ + field.ident + ": self."@ + field.ident + ".clone(),\n"@
        },
{
}

} // verus!
