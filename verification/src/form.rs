//! Decoding of the subscribe form: from the bytes of a request body to the two
//! fields `email` and `name`.

use vstd::prelude::*;

verus! {

/// A field of the subscribe form.
#[derive(Debug, Clone, Copy, PartialEq, Eq, Structural)]
pub enum Field {
    Email,
    Name,
}

/// What is wrong with one field of a submitted form.
#[derive(Debug, Clone, Copy, PartialEq, Eq, Structural)]
pub enum Fault {
    /// No pair of the body carries the field's key.
    Missing,
    /// More than one pair of the body carries the field's key.
    Repeated,
    /// The field is there, with no characters in it.
    Empty,
}

/// Why a body is not an acceptable subscribe form.
#[derive(Debug, Clone, Copy, PartialEq, Eq, Structural)]
pub struct FormError {
    pub field: Field,
    pub fault: Fault,
}

impl Field {
    /// The key under which the field is submitted.
    pub open spec fn key(self) -> Seq<char> {
        match self {
            Field::Email => "email"@,
            Field::Name => "name"@,
        }
    }

    /// The key under which the field is submitted.
    pub fn key_text(self) -> (text: &'static str)
        ensures
            text@ == self.key(),
    {
        match self {
            Field::Email => "email",
            Field::Name => "name",
        }
    }
}

/// The pairs of key and value that `form_urlencoded::parse` yields for a body,
/// in the order in which it yields them.
pub uninterp spec fn form_pairs(body: Seq<u8>) -> Seq<(Seq<char>, Seq<char>)>;

/// Runs `form_urlencoded::parse` over the body and collects the pairs it yields,
/// each as owned strings. The parser splits the body at `&`, each piece at its
/// first `=`, and percent-decodes both halves; it has no failure case. Nothing
/// is claimed here beyond the pairs being that parser's output for these bytes.
#[verifier::external_body]
pub(crate) fn decode_pairs(body: &[u8]) -> (pairs: Vec<(String, String)>)
    ensures
        pairs.deep_view() == form_pairs(body@),
{
    form_urlencoded::parse(body).into_owned().collect()
}

/// The values submitted under `key`, in the order of the pairs.
pub open spec fn values_of(pairs: Seq<(Seq<char>, Seq<char>)>, key: Seq<char>) -> Seq<Seq<char>> {
    pairs.filter(|pair: (Seq<char>, Seq<char>)| pair.0 == key).map_values(
        |pair: (Seq<char>, Seq<char>)| pair.1,
    )
}

/// One more pair at the end adds its value at the end where its key is `key`,
/// and nothing otherwise.
pub proof fn lemma_values_of_push(
    pairs: Seq<(Seq<char>, Seq<char>)>,
    pair: (Seq<char>, Seq<char>),
    key: Seq<char>,
)
    ensures
        values_of(pairs.push(pair), key) == if pair.0 == key {
            values_of(pairs, key).push(pair.1)
        } else {
            values_of(pairs, key)
        },
{
    reveal(Seq::filter);
    assert(pairs.push(pair).drop_last() =~= pairs);
}

/// No pairs, no values.
pub proof fn lemma_values_of_empty(key: Seq<char>)
    ensures
        values_of(Seq::empty(), key) == Seq::<Seq<char>>::empty(),
{
    reveal(Seq::filter);
}

/// The value of a field that must be submitted exactly once.
pub open spec fn sole_value(pairs: Seq<(Seq<char>, Seq<char>)>, field: Field) -> Result<
    Seq<char>,
    FormError,
> {
    let values = values_of(pairs, field.key());
    if values.len() == 0 {
        Err(FormError { field, fault: Fault::Missing })
    } else if values.len() > 1 {
        Err(FormError { field, fault: Fault::Repeated })
    } else {
        Ok(values[0])
    }
}

/// What the outcome of a lookup stands for: the text found, or the error.
pub open spec fn lookup_view(found: Result<String, FormError>) -> Result<Seq<char>, FormError> {
    match found {
        Ok(value) => Ok(value@),
        Err(error) => Err(error),
    }
}

/// Looks a field up among decoded pairs.
pub(crate) fn find_sole_value(pairs: &Vec<(String, String)>, field: Field) -> (found: Result<
    String,
    FormError,
>)
    ensures
        lookup_view(found) == sole_value(pairs.deep_view(), field),
{
    let key: String = field.key_text().to_owned();
    let ghost all = pairs.deep_view();
    let mut first: Option<String> = None;
    let mut count: usize = 0;
    let mut i: usize = 0;
    proof {
        lemma_values_of_empty(field.key());
    }
    while i < pairs.len()
        invariant
            i <= pairs.len(),
            all == pairs.deep_view(),
            all.len() == pairs.len(),
            key@ == field.key(),
            count <= i,
            count == values_of(all.take(i as int), field.key()).len(),
            count > 0 ==> first is Some && first->0@ == values_of(
                all.take(i as int),
                field.key(),
            )[0],
        decreases pairs.len() - i,
    {
        proof {
            assert(all.take(i + 1) =~= all.take(i as int).push(all[i as int]));
            lemma_values_of_push(all.take(i as int), all[i as int], field.key());
        }
        if pairs[i].0 == key {
            if count == 0 {
                first = Some(pairs[i].1.clone());
            }
            count = count + 1;
        }
        i = i + 1;
    }
    proof {
        assert(all.take(i as int) =~= all);
    }
    if count == 0 {
        Err(FormError { field, fault: Fault::Missing })
    } else if count > 1 {
        Err(FormError { field, fault: Fault::Repeated })
    } else {
        Ok(first.unwrap())
    }
}

} // verus!
