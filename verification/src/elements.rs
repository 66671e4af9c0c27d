use vstd::prelude::*;
use crate::{Validate, Validator};

verus! {

/// Ordered homogeneous collections whose elements can be validated one by one.
pub trait HasElements {
    type Item;

    spec fn spec_elements(&self) -> Seq<Self::Item>;

    fn elements_len(&self) -> (n: usize)
        ensures
            n == self.spec_elements().len(),
    ;

    fn element_at(&self, i: usize) -> (e: &Self::Item)
        requires
            i < self.spec_elements().len(),
        ensures
            *e == self.spec_elements()[i as int],
    ;
}

impl<T> HasElements for Vec<T> {
    type Item = T;

    open spec fn spec_elements(&self) -> Seq<T> {
        self@
    }

    fn elements_len(&self) -> (n: usize) {
        self.len()
    }

    fn element_at(&self, i: usize) -> (e: &T) {
        &self[i]
    }
}

/// Applies one validator to every element of an ordered collection; all
/// elements are always checked.
pub struct ElementsValidator<V>(pub V);

/// The failure of an element-wise validation: one optional slot per element,
/// slot `i` present exactly when element `i` failed.
#[derive(Debug, PartialEq, Clone)]
pub struct ElementsInvalid<E> {
    errors: Vec<Option<E>>,
}

impl<E> ElementsInvalid<E> {
    /// The per-element error slots, in element order.
    pub closed spec fn slots(&self) -> Seq<Option<E>> {
        self.errors@
    }

    pub fn index(&self, index: usize) -> (r: &Option<E>)
        requires
            index < self.slots().len(),
        ensures
            *r == self.slots()[index as int],
    {
        &self.errors[index]
    }

    pub fn slot_count(&self) -> (n: usize)
        ensures
            n == self.slots().len(),
    {
        self.errors.len()
    }
}

impl<E, V> Validator<E> for ElementsValidator<V> where
    E: HasElements,
    V: Validator<<E as HasElements>::Item>,
{
    type Error = ElementsInvalid<V::Error>;

    open spec fn spec_valid(&self, value: E) -> bool {
        forall|i: int| 0 <= i < value.spec_elements().len()
            ==> self.0.spec_valid(#[trigger] value.spec_elements()[i])
    }

    open spec fn spec_error(&self, value: E, error: ElementsInvalid<V::Error>) -> bool {
        let elems = value.spec_elements();
        &&& error.slots().len() == elems.len()
        &&& forall|i: int| 0 <= i < elems.len()
            ==> ((#[trigger] error.slots()[i]) is Some <==> !self.0.spec_valid(elems[i]))
        &&& forall|i: int| 0 <= i < elems.len()
            ==> ((#[trigger] error.slots()[i]) matches Some(e) ==> self.0.spec_error(elems[i], e))
    }

    fn validate(&self, value: &E) -> (r: Result<(), ElementsInvalid<V::Error>>) {
        let ghost elems = value.spec_elements();
        let n = value.elements_len();
        let mut errors: Vec<Option<V::Error>> = Vec::new();
        let mut any_failed = false;
        let mut i: usize = 0;
        while i < n
            invariant
                n == elems.len(),
                elems == value.spec_elements(),
                i <= n,
                errors@.len() == i,
                forall|j: int| 0 <= j < i
                    ==> ((#[trigger] errors@[j]) is Some <==> !self.0.spec_valid(elems[j])),
                forall|j: int| 0 <= j < i
                    ==> ((#[trigger] errors@[j]) matches Some(e) ==> self.0.spec_error(elems[j], e)),
                any_failed <==> exists|j: int| 0 <= j < i && (#[trigger] errors@[j]) is Some,
            decreases n - i,
        {
            let ghost prev = errors@;
            let ghost was_failed = any_failed;
            let element = value.element_at(i);
            match self.0.validate(element) {
                Ok(()) => errors.push(None),
                Err(e) => {
                    any_failed = true;
                    errors.push(Some(e));
                },
            }
            proof {
                assert(forall|j: int| 0 <= j < i ==> errors@[j] == prev[j]);
                assert(errors@[i as int] is Some <==> !self.0.spec_valid(elems[i as int]));
                if was_failed {
                    let j = choose|j: int| 0 <= j < i && (#[trigger] prev[j]) is Some;
                    assert(errors@[j] is Some);
                }
            }
            i = i + 1;
        }
        if any_failed {
            proof {
                let j = choose|j: int| 0 <= j < n && (#[trigger] errors@[j]) is Some;
                assert(!self.0.spec_valid(elems[j]));
            }
            Err(ElementsInvalid { errors })
        } else {
            proof {
                assert forall|k: int| 0 <= k < elems.len() implies
                    self.0.spec_valid(#[trigger] elems[k]) by {
                    assert(!(errors@[k] is Some));
                }
            }
            Ok(())
        }
    }
}

impl<V> ElementsValidator<V> {
    pub fn new(validator: V) -> (r: Self)
        ensures
            r == ElementsValidator(validator),
    {
        Self(validator)
    }
}

/// A collection of values whose type declares its own validator is itself
/// validated element-wise by that validator: the recursive composition
/// contract for nested values.
impl<E> Validate for E where
    E: HasElements,
    <E as HasElements>::Item: Validate,
{
    type Checker = ElementsValidator<<<E as HasElements>::Item as Validate>::Checker>;

    fn validator() -> (r: Self::Checker) {
        ElementsValidator(<E as HasElements>::Item::validator())
    }

    open spec fn validator_spec() -> Self::Checker {
        ElementsValidator(<E as HasElements>::Item::validator_spec())
    }

    fn validate(&self) -> (r: Result<
        (),
        <Self::Checker as Validator<Self>>::Error,
    >) {
        Self::validator().validate(self)
    }
}

/// Element-wise validation of a sequence of length `n` fails, if at all, with
/// exactly `n` optional slots; slot `i` is present exactly when the inner
/// validator fails on element `i`; an empty sequence always succeeds.
pub proof fn lemma_elements_semantics<E, V>(
    v: ElementsValidator<V>,
    value: E,
    error: ElementsInvalid<V::Error>,
)
    where E: HasElements, V: Validator<<E as HasElements>::Item>
    ensures
        value.spec_elements().len() == 0 ==> v.spec_valid(value),
        v.spec_error(value, error) ==> error.slots().len() == value.spec_elements().len(),
        v.spec_error(value, error) ==> forall|i: int| 0 <= i < value.spec_elements().len()
            ==> ((#[trigger] error.slots()[i]) is Some
                <==> !v.0.spec_valid(value.spec_elements()[i])),
{
}

} // verus!
