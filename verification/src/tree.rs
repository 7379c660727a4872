//! The keyed-value tree that every frame is decoded from, and the field
//! machinery shared by all decoders.
//!
//! A frame arrives as one self-contained tree.  Numbers are split into the
//! integers that fit a signed 64-bit word (tags, correlation ids, sequence
//! numbers) and every other numeric literal, which keeps its exact decimal
//! text so that no precision is ever lost to rounding.

use vstd::prelude::*;

use crate::error::DecodeError;

verus! {

/// One node of a parsed frame.
///
/// Objects are kept as ordered key-value pairs; decoders look a key up by its
/// first occurrence.
#[derive(Debug, PartialEq)]
pub enum Json {
    Null,
    Bool(bool),
    /// An integer literal within the signed 64-bit range.
    Int(i64),
    /// Any other numeric literal, kept as its exact decimal text.
    Num(String),
    Str(String),
    Arr(Vec<Json>),
    Obj(Vec<(String, Json)>),
}

/// The mathematical mirror of [`Json`]: what a tree *is*, with strings as
/// character sequences and vectors as sequences.
pub enum JsonV {
    Null,
    Bool(bool),
    Int(i64),
    Num(Seq<char>),
    Str(Seq<char>),
    Arr(Seq<JsonV>),
    Obj(Seq<(Seq<char>, JsonV)>),
}

/// The abstraction of one tree, down to its leaves.
pub open spec fn json_view(j: Json) -> JsonV
    decreases j,
{
    match j {
        Json::Null => JsonV::Null,
        Json::Bool(b) => JsonV::Bool(b),
        Json::Int(i) => JsonV::Int(i),
        Json::Num(s) => JsonV::Num(s@),
        Json::Str(s) => JsonV::Str(s@),
        // The out-of-range guard never matters to a `Seq` built this way; it
        // only keeps the recursion inside the tree.
        Json::Arr(v) => JsonV::Arr(
            Seq::new(
                v@.len(),
                |i: int|
                    if 0 <= i < v@.len() {
                        json_view(v@[i])
                    } else {
                        JsonV::Null
                    },
            ),
        ),
        Json::Obj(v) => JsonV::Obj(
            Seq::new(
                v@.len(),
                |i: int|
                    if 0 <= i < v@.len() {
                        (v@[i].0@, json_view(v@[i].1))
                    } else {
                        (Seq::empty(), JsonV::Null)
                    },
            ),
        ),
    }
}

impl DeepView for Json {
    type V = JsonV;

    open spec fn deep_view(&self) -> JsonV {
        json_view(*self)
    }
}

/// The abstract form of an object's field list.
pub type FieldSeq = Seq<(Seq<char>, JsonV)>;

/// The value of the first field named `key`, if any.
pub open spec fn field_value(fields: FieldSeq, key: Seq<char>) -> Option<JsonV>
    decreases fields.len(),
{
    if fields.len() == 0 {
        None
    } else if fields[0].0 == key {
        Some(fields[0].1)
    } else {
        field_value(fields.drop_first(), key)
    }
}

/// `fields` with the first field named `key` removed; unchanged when no field
/// carries that name.
pub open spec fn remove_first(fields: FieldSeq, key: Seq<char>) -> FieldSeq
    decreases fields.len(),
{
    if fields.len() == 0 {
        fields
    } else if fields[0].0 == key {
        fields.drop_first()
    } else {
        seq![fields[0]] + remove_first(fields.drop_first(), key)
    }
}

/// What remains of an object once each key in `keys` has been taken once, in
/// order.  A strict decoder accepts a field list exactly when nothing
/// remains: every field must carry one of the declared names, and no name may
/// repeat.
pub open spec fn remaining_after(fields: FieldSeq, keys: Seq<Seq<char>>) -> FieldSeq
    decreases keys.len(),
{
    if keys.len() == 0 {
        fields
    } else {
        remaining_after(remove_first(fields, keys[0]), keys.drop_first())
    }
}

/// Taking keys other than `other` never changes what `other` reads as.
pub proof fn lemma_remove_many_other(fields: FieldSeq, keys: Seq<Seq<char>>, other: Seq<char>)
    requires
        forall|i: int| 0 <= i < keys.len() ==> keys[i] != other,
    ensures
        field_value(remaining_after(fields, keys), other) == field_value(fields, other),
    decreases keys.len(),
{
    if keys.len() > 0 {
        lemma_remove_other(fields, keys[0], other);
        lemma_remove_many_other(remove_first(fields, keys[0]), keys.drop_first(), other);
    }
}

/// Taking one more key takes it from what was left.
pub proof fn lemma_remaining_snoc(fields: FieldSeq, keys: Seq<Seq<char>>, key: Seq<char>)
    ensures
        remaining_after(fields, keys.push(key)) == remove_first(remaining_after(fields, keys), key),
    decreases keys.len(),
{
    if keys.len() == 0 {
        assert(keys.push(key)[0] == key);
        assert(keys.push(key).drop_first() =~= keys);
        assert(remaining_after(fields, keys.push(key)) == remaining_after(
            remove_first(fields, key),
            keys,
        ));
    } else {
        assert(keys.push(key)[0] == keys[0]);
        assert(keys.push(key).drop_first() =~= keys.drop_first().push(key));
        assert(remaining_after(fields, keys.push(key)) == remaining_after(
            remove_first(fields, keys[0]),
            keys.drop_first().push(key),
        ));
        lemma_remaining_snoc(remove_first(fields, keys[0]), keys.drop_first(), key);
        assert(remaining_after(fields, keys) == remaining_after(
            remove_first(fields, keys[0]),
            keys.drop_first(),
        ));
    }
}

/// A strict reader over one object's fields.
///
/// Each declared key is taken at most once; what remains at the end is
/// exactly the fields that carried an undeclared or repeated name, so a
/// strict decoder finishes by demanding that nothing remains.
pub struct FieldTaker {
    fields: Vec<(String, Json)>,
    orig: Ghost<FieldSeq>,
    taken: Ghost<Seq<Seq<char>>>,
}

impl FieldTaker {
    /// The abstraction of the object this reader was opened on.
    pub closed spec fn orig(self) -> FieldSeq {
        self.orig@
    }

    /// The keys taken so far, in order.
    pub closed spec fn taken(self) -> Seq<Seq<char>> {
        self.taken@
    }

    /// The reader's bookkeeping matches its content.
    pub closed spec fn wf(self) -> bool {
        self.fields.deep_view() == remaining_after(self.orig@, self.taken@)
    }

    /// Open a reader on an object's fields.
    pub fn new(fields: Vec<(String, Json)>) -> (r: Self)
        ensures
            r.wf(),
            r.orig() == fields.deep_view(),
            r.taken() == Seq::<Seq<char>>::empty(),
    {
        let r = FieldTaker { orig: Ghost(fields.deep_view()), taken: Ghost(Seq::empty()), fields };
        r
    }

    /// Take one key, not taken before.
    pub fn take(&mut self, key: &str) -> (r: Option<Json>)
        requires
            old(self).wf(),
            forall|i: int| 0 <= i < old(self).taken().len() ==> old(self).taken()[i] != key@,
        ensures
            final(self).wf(),
            final(self).orig() == old(self).orig(),
            final(self).taken() == old(self).taken().push(key@),
            r.deep_view() == field_value(old(self).orig(), key@),
    {
        let r = take_field(&mut self.fields, key);
        proof {
            assert forall|i: int| 0 <= i < self.taken@.len() implies self.taken@[i] != key@ by {
                assert(old(self).taken()[i] != key@);
            }
            lemma_remove_many_other(self.orig@, self.taken@, key@);
            lemma_remaining_snoc(self.orig@, self.taken@, key@);
        }
        self.taken = Ghost(self.taken@.push(key@));
        r
    }

    /// Demand that every field has been accounted for: fail with a
    /// structural mismatch when an undeclared or repeated field remains.
    pub fn finish_strict(self) -> (r: Result<(), DecodeError>)
        requires
            self.wf(),
        ensures
            r is Ok <==> remaining_after(self.orig(), self.taken()).len() == 0,
            r is Err ==> r == Err::<(), DecodeError>(DecodeError::StructuralMismatch),
    {
        if self.fields.is_empty() {
            Ok(())
        } else {
            proof {
                assert(self.fields.deep_view().len() == self.fields@.len());
            }
            Err(DecodeError::StructuralMismatch)
        }
    }
}

/// An object node abstracts to the abstraction of its field vector.
pub proof fn lemma_obj_view(v: Vec<(String, Json)>)
    ensures
        json_view(Json::Obj(v)) == JsonV::Obj(v.deep_view()),
{
    assert(json_view(Json::Obj(v))->Obj_0 =~= v.deep_view());
}

/// An array node abstracts to the abstraction of its element vector.
pub proof fn lemma_arr_view(v: Vec<Json>)
    ensures
        json_view(Json::Arr(v)) == JsonV::Arr(v.deep_view()),
{
    assert(json_view(Json::Arr(v))->Arr_0 =~= v.deep_view());
}

/// How many fields carry the name `key`.
pub open spec fn key_count(fields: FieldSeq, key: Seq<char>) -> nat
    decreases fields.len(),
{
    if fields.len() == 0 {
        0
    } else {
        (if fields[0].0 == key {
            1nat
        } else {
            0nat
        }) + key_count(fields.drop_first(), key)
    }
}

/// The declarative reading of strictness: every field carries one of the
/// declared names, and no name repeats.
pub open spec fn fields_strict(fields: FieldSeq, keys: Seq<Seq<char>>) -> bool {
    forall|i: int|
        0 <= i < fields.len() ==> keys.contains((#[trigger] fields[i]).0) && key_count(
            fields,
            fields[i].0,
        ) <= 1
}

/// No more fields carry a name than there are fields.
proof fn lemma_count_le_len(fields: FieldSeq, key: Seq<char>)
    ensures
        key_count(fields, key) <= fields.len(),
    decreases fields.len(),
{
    if fields.len() > 0 {
        lemma_count_le_len(fields.drop_first(), key);
    }
}

/// A field's own name is carried at least once.
proof fn lemma_element_has_count(fields: FieldSeq, i: int)
    requires
        0 <= i < fields.len(),
    ensures
        key_count(fields, fields[i].0) >= 1,
    decreases fields.len(),
{
    if i > 0 {
        lemma_element_has_count(fields.drop_first(), i - 1);
    }
}

/// Taking one key lowers that key's own tally by exactly one when present.
proof fn lemma_count_self(fields: FieldSeq, key: Seq<char>)
    ensures
        key_count(remove_first(fields, key), key) == if key_count(fields, key) == 0 {
            0nat
        } else {
            (key_count(fields, key) - 1) as nat
        },
        remove_first(fields, key).len() == if key_count(fields, key) == 0 {
            fields.len()
        } else {
            (fields.len() - 1) as nat
        },
    decreases fields.len(),
{
    if fields.len() > 0 {
        if fields[0].0 == key {
        } else {
            lemma_count_self(fields.drop_first(), key);
            let tail = remove_first(fields.drop_first(), key);
            assert((seq![fields[0]] + tail).drop_first() == tail);
            assert((seq![fields[0]] + tail)[0] == fields[0]);
        }
    }
}

/// Taking one key leaves every other key's tally untouched.
proof fn lemma_count_other(fields: FieldSeq, key: Seq<char>, other: Seq<char>)
    requires
        key != other,
    ensures
        key_count(remove_first(fields, key), other) == key_count(fields, other),
    decreases fields.len(),
{
    if fields.len() > 0 {
        if fields[0].0 == key {
        } else {
            lemma_count_other(fields.drop_first(), key, other);
            let tail = remove_first(fields.drop_first(), key);
            assert((seq![fields[0]] + tail).drop_first() == tail);
            assert((seq![fields[0]] + tail)[0] == fields[0]);
        }
    }
}

/// Every field that survives a take was already among the fields.
proof fn lemma_remove_first_elements(fields: FieldSeq, key: Seq<char>)
    ensures
        forall|i: int|
            0 <= i < remove_first(fields, key).len() ==> exists|j: int|
                0 <= j < fields.len() && #[trigger] remove_first(fields, key)[i] == fields[j],
    decreases fields.len(),
{
    if fields.len() > 0 {
        let rf = remove_first(fields, key);
        if fields[0].0 == key {
            assert forall|i: int| 0 <= i < rf.len() implies exists|j: int|
                0 <= j < fields.len() && #[trigger] rf[i] == fields[j] by {
                assert(rf[i] == fields[i + 1]);
            }
        } else {
            lemma_remove_first_elements(fields.drop_first(), key);
            let tail = remove_first(fields.drop_first(), key);
            assert forall|i: int| 0 <= i < rf.len() implies exists|j: int|
                0 <= j < fields.len() && #[trigger] rf[i] == fields[j] by {
                if i == 0 {
                    assert(rf[0] == fields[0]);
                } else {
                    assert(rf[i] == tail[i - 1]);
                    let j = choose|j: int|
                        0 <= j < fields.drop_first().len() && #[trigger] tail[i - 1]
                            == fields.drop_first()[j];
                    assert(fields.drop_first()[j] == fields[j + 1]);
                    assert(rf[i] == fields[j + 1]);
                }
            }
        }
    }
}

/// How a whole take chain can lower one key's tally: by one when the chain
/// names the key, not at all otherwise.
proof fn lemma_chain_count_ge(fields: FieldSeq, keys: Seq<Seq<char>>, k: Seq<char>)
    requires
        forall|i: int, j: int| 0 <= i < j < keys.len() ==> keys[i] != keys[j],
    ensures
        key_count(remaining_after(fields, keys), k) >= if keys.contains(k) {
            if key_count(fields, k) == 0 {
                0nat
            } else {
                (key_count(fields, k) - 1) as nat
            }
        } else {
            key_count(fields, k)
        },
    decreases keys.len(),
{
    if keys.len() > 0 {
        if keys[0] == k {
            lemma_count_self(fields, k);
            assert(!keys.drop_first().contains(k)) by {
                if keys.drop_first().contains(k) {
                    let i = choose|i: int|
                        0 <= i < keys.drop_first().len() && keys.drop_first()[i] == k;
                    assert(keys[i + 1] == k);
                }
            }
            lemma_chain_count_ge(remove_first(fields, k), keys.drop_first(), k);
        } else {
            lemma_count_other(fields, keys[0], k);
            lemma_chain_count_ge(remove_first(fields, keys[0]), keys.drop_first(), k);
            if keys.contains(k) {
                let i = choose|i: int| 0 <= i < keys.len() && keys[i] == k;
                assert(keys.drop_first()[i - 1] == k);
            } else {
                assert(!keys.drop_first().contains(k)) by {
                    if keys.drop_first().contains(k) {
                        let i = choose|i: int|
                            0 <= i < keys.drop_first().len() && keys.drop_first()[i] == k;
                        assert(keys[i + 1] == k);
                    }
                }
            }
        }
    }
}

proof fn lemma_strict_accepted(fields: FieldSeq, keys: Seq<Seq<char>>)
    requires
        forall|i: int, j: int| 0 <= i < j < keys.len() ==> keys[i] != keys[j],
        fields_strict(fields, keys),
    ensures
        remaining_after(fields, keys).len() == 0,
    decreases keys.len(),
{
    if keys.len() == 0 {
        if fields.len() > 0 {
            assert(keys.contains(fields[0].0));
            assert(false);
        }
    } else {
        let k = keys[0];
        let rf = remove_first(fields, k);
        lemma_remove_first_elements(fields, k);
        assert forall|i: int| 0 <= i < rf.len() implies keys.drop_first().contains(
            (#[trigger] rf[i]).0,
        ) && key_count(rf, rf[i].0) <= 1 by {
            let j = choose|j: int| 0 <= j < fields.len() && rf[i] == fields[j];
            assert(keys.contains(fields[j].0));
            assert(key_count(fields, fields[j].0) <= 1);
            if rf[i].0 == k {
                lemma_element_has_count(rf, i);
                lemma_element_has_count(fields, j);
                lemma_count_self(fields, k);
                assert(false);
            }
            lemma_count_other(fields, k, rf[i].0);
            let idx = choose|idx: int| 0 <= idx < keys.len() && keys[idx] == rf[i].0;
            assert(keys.drop_first()[idx - 1] == rf[i].0);
        }
        lemma_strict_accepted(rf, keys.drop_first());
    }
}

proof fn lemma_loose_rejected(fields: FieldSeq, keys: Seq<Seq<char>>)
    requires
        forall|i: int, j: int| 0 <= i < j < keys.len() ==> keys[i] != keys[j],
        !fields_strict(fields, keys),
    ensures
        remaining_after(fields, keys).len() >= 1,
{
    let i = choose|i: int|
        0 <= i < fields.len() && !(keys.contains((#[trigger] fields[i]).0) && key_count(
            fields,
            fields[i].0,
        ) <= 1);
    let e = fields[i].0;
    lemma_element_has_count(fields, i);
    lemma_chain_count_ge(fields, keys, e);
    lemma_count_le_len(remaining_after(fields, keys), e);
}

/// What strict acceptance means.  A strict decoder accepts an object
/// exactly when every field carries one of the declared names and no name
/// repeats — the operational reading (nothing remains once each declared
/// key has been taken once) and the declarative one coincide.
pub proof fn lemma_strict_characterization(fields: FieldSeq, keys: Seq<Seq<char>>)
    requires
        forall|i: int, j: int| 0 <= i < j < keys.len() ==> keys[i] != keys[j],
    ensures
        remaining_after(fields, keys).len() == 0 <==> fields_strict(fields, keys),
{
    if fields_strict(fields, keys) {
        lemma_strict_accepted(fields, keys);
    } else {
        lemma_loose_rejected(fields, keys);
    }
}

/// Relies on `str`'s `PartialEq`: two string slices compare equal exactly
/// when their character sequences are equal.
#[verifier::external_body]
pub(crate) fn str_eq(a: &str, b: &str) -> (r: bool)
    ensures
        r == (a@ == b@),
{
    a == b
}

/// Taking a key that no field carries changes nothing.
pub proof fn lemma_remove_absent(fields: FieldSeq, key: Seq<char>)
    requires
        field_value(fields, key) is None,
    ensures
        remove_first(fields, key) == fields,
    decreases fields.len(),
{
    if fields.len() > 0 {
        lemma_remove_absent(fields.drop_first(), key);
        assert(seq![fields[0]] + fields.drop_first() =~= fields);
    }
}

/// Looking a key up past a prefix that does not carry it changes nothing.
pub(crate) proof fn lemma_skip_prefix(fields: FieldSeq, key: Seq<char>, i: int)
    requires
        0 <= i <= fields.len(),
        forall|j: int| 0 <= j < i ==> (#[trigger] fields[j]).0 != key,
    ensures
        field_value(fields, key) == field_value(fields.skip(i), key),
        remove_first(fields, key) == fields.take(i) + remove_first(fields.skip(i), key),
    decreases i,
{
    if i == 0 {
        assert(fields.skip(0) == fields);
        assert(fields.take(0) + remove_first(fields, key) == remove_first(fields, key));
    } else {
        lemma_skip_prefix(fields, key, i - 1);
        assert(fields.skip(i - 1).drop_first() == fields.skip(i));
        if fields.skip(i - 1).len() == 0 {
            assert(fields.take(i - 1) + remove_first(fields.skip(i - 1), key) == fields.take(i)
                + remove_first(fields.skip(i), key));
        } else {
            assert(fields.skip(i - 1)[0] == fields[i - 1]);
            assert(fields.take(i - 1) + seq![fields[i - 1]] == fields.take(i));
            assert(fields.take(i - 1) + (seq![fields.skip(i - 1)[0]] + remove_first(
                fields.skip(i),
                key,
            )) == fields.take(i) + remove_first(fields.skip(i), key));
        }
    }
}

/// Removing one key leaves every other key's first value untouched.
pub proof fn lemma_remove_other(fields: FieldSeq, key: Seq<char>, other: Seq<char>)
    requires
        key != other,
    ensures
        field_value(remove_first(fields, key), other) == field_value(fields, other),
    decreases fields.len(),
{
    if fields.len() > 0 {
        if fields[0].0 == key {
        } else {
            lemma_remove_other(fields.drop_first(), key, other);
            let tail = remove_first(fields.drop_first(), key);
            assert((seq![fields[0]] + tail).drop_first() == tail);
            assert((seq![fields[0]] + tail)[0] == fields[0]);
        }
    }
}

/// Remove the first field named `key` from an object and hand its value out;
/// `None` when no field carries that name, in which case the object is left
/// unchanged.
pub fn take_field(fields: &mut Vec<(String, Json)>, key: &str) -> (r: Option<Json>)
    ensures
        r.deep_view() == field_value(old(fields).deep_view(), key@),
        final(fields).deep_view() == remove_first(old(fields).deep_view(), key@),
{
    let ghost dv = fields.deep_view();
    let mut i: usize = 0;
    loop
        invariant
            i <= fields.len(),
            fields@ == old(fields)@,
            dv == fields.deep_view(),
            forall|j: int| 0 <= j < i ==> (#[trigger] dv[j]).0 != key@,
        decreases fields.len() - i,
    {
        proof {
            assert(dv.len() == fields@.len());
        }
        if i == fields.len() {
            proof {
                lemma_skip_prefix(dv, key@, dv.len() as int);
                assert(dv.take(dv.len() as int) + remove_first(dv.skip(dv.len() as int), key@)
                    == dv);
            }
            return None;
        }
        let hit = str_eq(fields[i].0.as_str(), key);
        proof {
            assert(dv[i as int] == (fields@[i as int].0@, json_view(fields@[i as int].1)));
        }
        if hit {
            let pair = fields.remove(i);
            proof {
                lemma_skip_prefix(dv, key@, i as int);
                assert(dv.skip(i as int)[0] == dv[i as int]);
                assert(dv.skip(i as int).drop_first() == dv.skip(i as int + 1));
                assert(remove_first(dv, key@) == dv.take(i as int) + dv.skip(i as int + 1));
                assert(fields.deep_view() =~= dv.take(i as int) + dv.skip(i as int + 1));
                assert(field_value(dv, key@) == Some(dv[i as int].1));
            }
            return Some(pair.1);
        }
        i = i + 1;
    }
}

/// The value of a required string field.
pub open spec fn spec_req_str(v: Option<JsonV>) -> Result<Seq<char>, DecodeError> {
    match v {
        Some(JsonV::Str(s)) => Ok(s),
        _ => Err(DecodeError::StructuralMismatch),
    }
}

/// The value of a required boolean field.
pub open spec fn spec_req_bool(v: Option<JsonV>) -> Result<bool, DecodeError> {
    match v {
        Some(JsonV::Bool(b)) => Ok(b),
        _ => Err(DecodeError::StructuralMismatch),
    }
}

/// The value of a required integer field.
pub open spec fn spec_req_i64(v: Option<JsonV>) -> Result<i64, DecodeError> {
    match v {
        Some(JsonV::Int(i)) => Ok(i),
        _ => Err(DecodeError::StructuralMismatch),
    }
}

/// The value of an optional string field; an absent field and an explicit
/// null both read as `None`.
pub open spec fn spec_opt_str(v: Option<JsonV>) -> Result<Option<Seq<char>>, DecodeError> {
    match v {
        None => Ok(None),
        Some(JsonV::Null) => Ok(None),
        Some(JsonV::Str(s)) => Ok(Some(s)),
        _ => Err(DecodeError::StructuralMismatch),
    }
}

/// The value of an optional boolean field.
pub open spec fn spec_opt_bool(v: Option<JsonV>) -> Result<Option<bool>, DecodeError> {
    match v {
        None => Ok(None),
        Some(JsonV::Null) => Ok(None),
        Some(JsonV::Bool(b)) => Ok(Some(b)),
        _ => Err(DecodeError::StructuralMismatch),
    }
}

/// The value of an optional integer field.
pub open spec fn spec_opt_i64(v: Option<JsonV>) -> Result<Option<i64>, DecodeError> {
    match v {
        None => Ok(None),
        Some(JsonV::Null) => Ok(None),
        Some(JsonV::Int(i)) => Ok(Some(i)),
        _ => Err(DecodeError::StructuralMismatch),
    }
}

pub fn req_str(v: Option<Json>) -> (r: Result<String, DecodeError>)
    ensures
        res_view(r) == spec_req_str(v.deep_view()),
{
    match v {
        Some(Json::Str(s)) => Ok(s),
        _ => Err(DecodeError::StructuralMismatch),
    }
}

pub fn req_bool(v: Option<Json>) -> (r: Result<bool, DecodeError>)
    ensures
        res_view(r) == spec_req_bool(v.deep_view()),
{
    match v {
        Some(Json::Bool(b)) => Ok(b),
        _ => Err(DecodeError::StructuralMismatch),
    }
}

pub fn req_i64(v: Option<Json>) -> (r: Result<i64, DecodeError>)
    ensures
        res_view(r) == spec_req_i64(v.deep_view()),
{
    match v {
        Some(Json::Int(i)) => Ok(i),
        _ => Err(DecodeError::StructuralMismatch),
    }
}

pub fn opt_str(v: Option<Json>) -> (r: Result<Option<String>, DecodeError>)
    ensures
        res_view(r) == spec_opt_str(v.deep_view()),
{
    match v {
        None => Ok(None),
        Some(Json::Null) => Ok(None),
        Some(Json::Str(s)) => Ok(Some(s)),
        _ => Err(DecodeError::StructuralMismatch),
    }
}

pub fn opt_bool(v: Option<Json>) -> (r: Result<Option<bool>, DecodeError>)
    ensures
        res_view(r) == spec_opt_bool(v.deep_view()),
{
    match v {
        None => Ok(None),
        Some(Json::Null) => Ok(None),
        Some(Json::Bool(b)) => Ok(Some(b)),
        _ => Err(DecodeError::StructuralMismatch),
    }
}

pub fn opt_i64(v: Option<Json>) -> (r: Result<Option<i64>, DecodeError>)
    ensures
        res_view(r) == spec_opt_i64(v.deep_view()),
{
    match v {
        None => Ok(None),
        Some(Json::Null) => Ok(None),
        Some(Json::Int(i)) => Ok(Some(i)),
        _ => Err(DecodeError::StructuralMismatch),
    }
}

/// The abstraction of a decode result: the payload is taken to its view, the
/// error is kept as it is.
pub open spec fn res_view<T: DeepView>(r: Result<T, DecodeError>) -> Result<T::V, DecodeError> {
    match r {
        Ok(t) => Ok(t.deep_view()),
        Err(e) => Err(e),
    }
}

} // verus!
