//! Plain forms: values of this crate written as tuples, vectors, options,
//! strings and numbers, which a serializer can take as they are.

use crate::rows::row_views;
use vstd::prelude::*;

verus! {

/// A value that has a plain form and can be rebuilt from it.
pub trait Plain: View + Sized {
    /// The plain form.
    type Form: DeepView;

    /// The plain form of a value.
    spec fn form_of(value: Self::V) -> <Self::Form as DeepView>::V;

    /// The value that a plain form stands for, if it stands for one.
    spec fn value_of(form: <Self::Form as DeepView>::V) -> Option<Self::V>;

    /// The plain form of a value stands for that value.
    proof fn lemma_value_of_form(value: Self::V)
        ensures
            Self::value_of(Self::form_of(value)) == Some(value),
    ;

    /// Writes the value in its plain form.
    fn to_form(&self) -> (r: Self::Form)
        ensures
            r.deep_view() == Self::form_of(self@),
    ;

    /// Rebuilds the value that a plain form stands for.
    fn from_form(form: &Self::Form) -> (r: Option<Self>)
        ensures
            match r {
                Some(value) => Self::value_of(form.deep_view()) == Some(value@),
                None => Self::value_of(form.deep_view()) is None,
            },
    ;
}

/// The plain forms of a sequence of values.
pub open spec fn forms_of<T: Plain>(values: Seq<T::V>) -> Seq<<T::Form as DeepView>::V> {
    values.map_values(|value: T::V| T::form_of(value))
}

/// The values that a sequence of plain forms stands for: every form must
/// stand for one.
pub open spec fn values_of<T: Plain>(forms: Seq<<T::Form as DeepView>::V>) -> Option<Seq<T::V>> {
    if forall|i: int| 0 <= i < forms.len() ==> (#[trigger] T::value_of(forms[i])) is Some {
        Some(forms.map_values(|form: <T::Form as DeepView>::V| T::value_of(form)->Some_0))
    } else {
        None
    }
}

/// The plain forms of a sequence of values stand for those values.
pub proof fn lemma_values_of_forms<T: Plain>(values: Seq<T::V>)
    ensures
        values_of::<T>(forms_of::<T>(values)) == Some(values),
{
    let forms = forms_of::<T>(values);
    assert forall|i: int| 0 <= i < forms.len() implies (#[trigger] T::value_of(forms[i]))
        == Some(values[i]) by {
        T::lemma_value_of_form(values[i]);
    }
    assert(forms.map_values(|form: <T::Form as DeepView>::V| T::value_of(form)->Some_0)
        =~= values);
}

/// Writes every value of `values` in its plain form.
pub fn to_forms<T: Plain>(values: &Vec<T>) -> (r: Vec<T::Form>)
    ensures
        r.deep_view() == forms_of::<T>(row_views(values@)),
{
    let mut out: Vec<T::Form> = Vec::new();
    let mut i: usize = 0;
    while i < values.len()
        invariant
            i <= values.len(),
            out.deep_view() == forms_of::<T>(row_views(values@)).take(i as int),
        decreases values.len() - i,
    {
        let ghost before = out.deep_view();
        let form = values[i].to_form();
        let ghost added = form.deep_view();
        out.push(form);
        assert(out.deep_view() =~= before.push(added));
        assert(forms_of::<T>(row_views(values@)).take(i + 1) =~= forms_of::<T>(
            row_views(values@),
        ).take(i as int).push(added));
        i += 1;
    }
    assert(forms_of::<T>(row_views(values@)).take(i as int) =~= forms_of::<T>(row_views(values@)));
    out
}

/// Rebuilds the values that `forms` stand for, or `None` where one of them
/// stands for no value.
pub fn from_forms<T: Plain>(forms: &Vec<T::Form>) -> (r: Option<Vec<T>>)
    ensures
        match r {
            Some(values) => values_of::<T>(forms.deep_view()) == Some(row_views(values@)),
            None => values_of::<T>(forms.deep_view()) is None,
        },
{
    let ghost all = forms.deep_view();
    let mut out: Vec<T> = Vec::new();
    let mut i: usize = 0;
    while i < forms.len()
        invariant
            i <= forms.len(),
            all == forms.deep_view(),
            out.len() == i,
            forall|k: int| 0 <= k < i ==> (#[trigger] T::value_of(all[k])) == Some(out@[k]@),
        decreases forms.len() - i,
    {
        assert(all[i as int] == forms@[i as int].deep_view());
        match T::from_form(&forms[i]) {
            Some(value) => {
                out.push(value);
            },
            None => {
                assert(T::value_of(all[i as int]) is None);
                return None;
            },
        }
        i += 1;
    }
    assert(all.map_values(|form: <T::Form as DeepView>::V| T::value_of(form)->Some_0)
        =~= row_views(out@));
    Some(out)
}

} // verus!
