//! What the synthesized routine does when it runs: the conversion of a
//! mapping into the values of a type's fields, plan by plan.
//!
//! Decoding a raw string into a field's value is not part of this crate. The
//! conversion takes the decoder as a function and promises what it does with
//! whatever the decoder answers.
use vstd::prelude::*;
use vstd::hash_map::StringHashMap;
use crate::field::{Field, FieldView, Modality};

verus! {

/// A mapping from string keys to string values: the input of a conversion.
pub struct Mapping {
    entries: StringHashMap<String>,
}

impl View for Mapping {
    type V = Map<Seq<char>, String>;

    closed spec fn view(&self) -> Map<Seq<char>, String> {
        self.entries@
    }
}

impl Mapping {
    /// The mapping without any key.
    pub fn new() -> (mapping: Mapping)
        ensures
            mapping@ == Map::<Seq<char>, String>::empty(),
    {
        Mapping { entries: StringHashMap::new() }
    }

    /// Puts `value` under `key`, in place of what was there.
    pub fn insert(&mut self, key: String, value: String)
        ensures
            final(self)@ == old(self)@.insert(key@, value),
    {
        self.entries.insert(key, value);
    }

    /// The value under `key`, if the key is present.
    pub fn get(&self, key: &str) -> (value: Option<&String>)
        ensures
            match value {
                Some(raw) => self@.contains_key(key@) && *raw == self@[key@],
                None => !self@.contains_key(key@),
            },
    {
        self.entries.get(key)
    }
}

/// The value that a conversion gives to one field.
#[derive(Debug, PartialEq)]
pub enum FieldValue<V> {
    /// The decoded value of a required field.
    Required(V),
    /// The decoded value of an optional field, or nothing where its key was
    /// absent.
    Optional(Option<V>),
}

/// Why a conversion failed. The first field that fails, in declaration order,
/// decides.
#[derive(Debug)]
pub enum ConversionError<E> {
    /// The key of a required field is absent from the mapping.
    FieldMissing { name: String },
    /// The decoder rejected a raw string; `source` is its own error.
    DecodeFailure { source: E },
}

/// Mathematical model of a [`ConversionError`].
pub enum ConversionErrorView<E> {
    FieldMissing { name: Seq<char> },
    DecodeFailure { source: E },
}

impl<E> View for ConversionError<E> {
    type V = ConversionErrorView<E>;

    open spec fn view(&self) -> ConversionErrorView<E> {
        match self {
            ConversionError::FieldMissing { name } => ConversionErrorView::FieldMissing {
                name: name@,
            },
            ConversionError::DecodeFailure { source } => ConversionErrorView::DecodeFailure {
                source: *source,
            },
        }
    }
}

/// The model of what the extraction of one field gives.
pub open spec fn slot_view<V, E>(slot: Result<FieldValue<V>, ConversionError<E>>) -> Result<
    FieldValue<V>,
    ConversionErrorView<E>,
> {
    match slot {
        Ok(value) => Ok(value),
        Err(e) => Err(e@),
    }
}

/// The model of what a conversion gives.
pub open spec fn record_view<V, E>(record: Result<Vec<FieldValue<V>>, ConversionError<E>>) -> Result<
    Seq<FieldValue<V>>,
    ConversionErrorView<E>,
> {
    match record {
        Ok(values) => Ok(values@),
        Err(e) => Err(e@),
    }
}

/// What one field comes to, given what was found for it: `None` where its key
/// is absent, else what the decoder made of the raw string.
pub open spec fn settle<V, E>(field: FieldView, decoded: Option<Result<V, E>>) -> Result<
    FieldValue<V>,
    ConversionErrorView<E>,
> {
    match decoded {
        Some(Ok(value)) => Ok(
            match field.modality {
                Modality::Required => FieldValue::Required(value),
                Modality::Optional => FieldValue::Optional(Some(value)),
            },
        ),
        Some(Err(source)) => Err(ConversionErrorView::DecodeFailure { source }),
        None => match field.modality {
            Modality::Required => Err(ConversionErrorView::FieldMissing { name: field.name }),
            Modality::Optional => Ok(FieldValue::Optional(None)),
        },
    }
}

/// Decides what one field comes to, given what was found for it: `None` where
/// its key is absent, else what the decoder made of the raw string.
pub fn settle_field<V, E>(field: &Field, decoded: Option<Result<V, E>>) -> (slot: Result<
    FieldValue<V>,
    ConversionError<E>,
>)
    ensures
        slot_view(slot) == settle(field@, decoded),
{
    match decoded {
        Some(Ok(value)) => match field.modality() {
            Modality::Required => Ok(FieldValue::Required(value)),
            Modality::Optional => Ok(FieldValue::Optional(Some(value))),
        },
        Some(Err(source)) => Err(ConversionError::DecodeFailure { source }),
        None => match field.modality() {
            Modality::Required => Err(ConversionError::FieldMissing { name: field.ident().clone() }),
            Modality::Optional => Ok(FieldValue::Optional(None)),
        },
    }
}

/// Whether `slot` is something that the extraction of `field` from `map` can
/// give with the decoder `decode`.
pub open spec fn field_outcome<V, E, D: Fn(&Field, &String) -> Result<V, E>>(
    field: Field,
    map: Map<Seq<char>, String>,
    decode: D,
    slot: Result<FieldValue<V>, ConversionErrorView<E>>,
) -> bool {
    if map.contains_key(field@.name) {
        exists|decoded: Result<V, E>|
            #[trigger] decode.ensures((&field, &map[field@.name]), decoded) && slot == settle(
                field@,
                Some(decoded),
            )
    } else {
        slot == settle::<V, E>(field@, None)
    }
}

/// Whether the extraction of `field` from `map` can give a value.
pub open spec fn field_can_succeed<V, E, D: Fn(&Field, &String) -> Result<V, E>>(
    field: Field,
    map: Map<Seq<char>, String>,
    decode: D,
) -> bool {
    exists|value: FieldValue<V>| #[trigger]
        field_outcome::<V, E, D>(field, map, decode, Ok(value))
}

/// Whether `record` is something that the conversion of `map` along `fields`
/// can give with the decoder `decode`.
///
/// A record has one value for each field, in order, each an outcome of its
/// field. An error is an outcome of some field before which every field gave a
/// value: the first failure decides, and fields behind it are not looked at.
pub open spec fn converts<V, E, D: Fn(&Field, &String) -> Result<V, E>>(
    fields: Seq<Field>,
    map: Map<Seq<char>, String>,
    decode: D,
    record: Result<Seq<FieldValue<V>>, ConversionErrorView<E>>,
) -> bool {
    match record {
        Ok(values) => {
            &&& values.len() == fields.len()
            &&& forall|i: int|
                0 <= i < fields.len() ==> field_outcome::<V, E, D>(
                    fields[i],
                    map,
                    decode,
                    Ok(#[trigger] values[i]),
                )
        },
        Err(e) => exists|k: int|
            {
                &&& 0 <= k < fields.len()
                &&& #[trigger] field_outcome::<V, E, D>(fields[k], map, decode, Err(e))
                &&& forall|i: int|
                    0 <= i < k ==> field_can_succeed::<V, E, D>(#[trigger] fields[i], map, decode)
            },
    }
}

/// Converts `map` into the values of `fields`, in order.
///
/// Each field is looked up under its name. A raw string that is found goes to
/// `decode` together with the field's plan. The first field that fails ends
/// the conversion: a required field whose key is absent, or a raw string that
/// the decoder rejects.
pub fn convert<V, E, D>(fields: &Vec<Field>, map: &Mapping, decode: D) -> (record: Result<
    Vec<FieldValue<V>>,
    ConversionError<E>,
>) where D: Fn(&Field, &String) -> Result<V, E>
    requires
        forall|i: int|
            0 <= i < fields@.len() && map@.contains_key((#[trigger] fields@[i])@.name)
                ==> decode.requires((&fields@[i], &map@[fields@[i]@.name])),
    ensures
        converts(fields@, map@, decode, record_view(record)),
{
    let mut values: Vec<FieldValue<V>> = Vec::new();
    let mut i: usize = 0;
    while i < fields.len()
        invariant
            i <= fields.len(),
            values@.len() == i,
            forall|j: int|
                0 <= j < fields@.len() && map@.contains_key((#[trigger] fields@[j])@.name)
                    ==> decode.requires((&fields@[j], &map@[fields@[j]@.name])),
            forall|j: int|
                0 <= j < i ==> field_outcome::<V, E, D>(
                    fields@[j],
                    map@,
                    decode,
                    Ok(#[trigger] values@[j]),
                ),
        decreases fields.len() - i,
    {
        let field = &fields[i];
        let decoded = match map.get(field.ident().as_str()) {
            Some(raw) => Some(decode(field, raw)),
            None => None,
        };
        let ghost found = decoded;
        let slot = settle_field(field, decoded);
        proof {
            if map@.contains_key(field@.name) {
                assert(decode.ensures((field, &map@[field@.name]), found->0));
            }
            assert(field_outcome::<V, E, D>(fields@[i as int], map@, decode, slot_view(slot)));
        }
        match slot {
            Ok(value) => {
                values.push(value);
            },
            Err(e) => {
                proof {
                    assert forall|j: int| 0 <= j < i implies field_can_succeed::<V, E, D>(
                        #[trigger] fields@[j],
                        map@,
                        decode,
                    ) by {
                        assert(field_outcome::<V, E, D>(fields@[j], map@, decode, Ok(values@[j])));
                    }
                }
                return Err(e);
            },
        }
        i += 1;
    }
    Ok(values)
}

/// Whether the extraction of `field` from `map` gives a value whatever the
/// decoder answers: its key is present and the decoder accepts the raw string,
/// or its key is absent and the field is optional.
pub open spec fn field_never_fails<V, E, D: Fn(&Field, &String) -> Result<V, E>>(
    field: Field,
    map: Map<Seq<char>, String>,
    decode: D,
) -> bool {
    if map.contains_key(field@.name) {
        forall|decoded: Result<V, E>| #[trigger]
            decode.ensures((&field, &map[field@.name]), decoded) ==> decoded is Ok
    } else {
        field@.modality == Modality::Optional
    }
}

/// A conversion in which no field can fail gives a record.
pub proof fn lemma_conversion_succeeds<V, E, D: Fn(&Field, &String) -> Result<V, E>>(
    fields: Seq<Field>,
    map: Map<Seq<char>, String>,
    decode: D,
    record: Result<Seq<FieldValue<V>>, ConversionErrorView<E>>,
)
    requires
        converts(fields, map, decode, record),
        forall|i: int|
            0 <= i < fields.len() ==> field_never_fails::<V, E, D>(
                #[trigger] fields[i],
                map,
                decode,
            ),
    ensures
        record is Ok,
{
    if let Err(e) = record {
        let k = choose|k: int|
            {
                &&& 0 <= k < fields.len()
                &&& #[trigger] field_outcome::<V, E, D>(fields[k], map, decode, Err(e))
                &&& forall|i: int|
                    0 <= i < k ==> field_can_succeed::<V, E, D>(#[trigger] fields[i], map, decode)
            };
        assert(field_never_fails::<V, E, D>(fields[k], map, decode));
        assert(false);
    }
}

/// Whether `slot` holds what the decoder made of the raw string under the
/// field's name.
pub open spec fn holds_decoded_value<V, E, D: Fn(&Field, &String) -> Result<V, E>>(
    field: Field,
    map: Map<Seq<char>, String>,
    decode: D,
    slot: FieldValue<V>,
) -> bool {
    exists|value: V|
        {
            &&& #[trigger] decode.ensures((&field, &map[field@.name]), Ok::<V, E>(value))
            &&& Ok::<FieldValue<V>, ConversionErrorView<E>>(slot) == settle(
                field@,
                Some(Ok::<V, E>(value)),
            )
        }
}

/// In every record that the conversion gives, a field whose key is present
/// holds what the decoder made of the raw string under that key. The decoder
/// was handed the field's plan, so a field marked for JSON holds the decoded
/// JSON.
pub proof fn lemma_present_field_holds_decoded_value<
    V,
    E,
    D: Fn(&Field, &String) -> Result<V, E>,
>(
    fields: Seq<Field>,
    map: Map<Seq<char>, String>,
    decode: D,
    values: Seq<FieldValue<V>>,
    k: int,
)
    requires
        converts(fields, map, decode, Ok::<Seq<FieldValue<V>>, ConversionErrorView<E>>(values)),
        0 <= k < fields.len(),
        map.contains_key(fields[k]@.name),
    ensures
        holds_decoded_value::<V, E, D>(fields[k], map, decode, values[k]),
        fields[k]@.modality == Modality::Required ==> values[k] is Required,
        fields[k]@.modality == Modality::Optional ==> values[k] matches FieldValue::Optional(
            Some(_),
        ),
{
    assert(field_outcome::<V, E, D>(fields[k], map, decode, Ok(values[k])));
    let decoded = choose|decoded: Result<V, E>|
        #[trigger] decode.ensures((&fields[k], &map[fields[k]@.name]), decoded) && Ok::<
            FieldValue<V>,
            ConversionErrorView<E>,
        >(values[k]) == settle(fields[k]@, Some(decoded));
    assert(decode.ensures((&fields[k], &map[fields[k]@.name]), Ok::<V, E>(decoded->Ok_0)));
}

/// Where every field is required, every key is present and the decoder
/// accepts every raw string, the conversion gives a record, and each of its
/// values is what the decoder made of the raw string under the field's name.
pub proof fn lemma_complete_mapping_gives_decoded_values<
    V,
    E,
    D: Fn(&Field, &String) -> Result<V, E>,
>(
    fields: Seq<Field>,
    map: Map<Seq<char>, String>,
    decode: D,
    record: Result<Seq<FieldValue<V>>, ConversionErrorView<E>>,
)
    requires
        converts(fields, map, decode, record),
        forall|i: int|
            0 <= i < fields.len() ==> {
                &&& (#[trigger] fields[i])@.modality == Modality::Required
                &&& map.contains_key(fields[i]@.name)
                &&& field_never_fails::<V, E, D>(fields[i], map, decode)
            },
    ensures
        record matches Ok(values) && values.len() == fields.len() && forall|i: int|
            0 <= i < fields.len() ==> (#[trigger] values[i]) is Required && holds_decoded_value::<
                V,
                E,
                D,
            >(fields[i], map, decode, values[i]),
{
    lemma_conversion_succeeds(fields, map, decode, record);
    let values = record->Ok_0;
    assert forall|i: int| 0 <= i < fields.len() implies (#[trigger] values[i]) is Required
        && holds_decoded_value::<V, E, D>(fields[i], map, decode, values[i]) by {
        lemma_present_field_holds_decoded_value(fields, map, decode, values, i);
    }
}

/// Without fields the conversion gives the empty record, whatever the mapping
/// holds.
pub proof fn lemma_empty_plan_gives_empty_record<V, E, D: Fn(&Field, &String) -> Result<V, E>>(
    fields: Seq<Field>,
    map: Map<Seq<char>, String>,
    decode: D,
    record: Result<Seq<FieldValue<V>>, ConversionErrorView<E>>,
)
    requires
        converts(fields, map, decode, record),
        fields.len() == 0,
    ensures
        record == Ok::<Seq<FieldValue<V>>, ConversionErrorView<E>>(Seq::empty()),
{
    match record {
        Ok(values) => {
            assert(values =~= Seq::empty());
        },
        Err(e) => {},
    }
}

/// A required field whose key is absent fails the conversion. Where no field
/// before it can fail, the error names that field.
pub proof fn lemma_missing_required_field_fails<V, E, D: Fn(&Field, &String) -> Result<V, E>>(
    fields: Seq<Field>,
    map: Map<Seq<char>, String>,
    decode: D,
    record: Result<Seq<FieldValue<V>>, ConversionErrorView<E>>,
    k: int,
)
    requires
        converts(fields, map, decode, record),
        0 <= k < fields.len(),
        fields[k]@.modality == Modality::Required,
        !map.contains_key(fields[k]@.name),
    ensures
        record is Err,
        (forall|i: int|
            0 <= i < k ==> field_never_fails::<V, E, D>(#[trigger] fields[i], map, decode))
            ==> record == Err::<Seq<FieldValue<V>>, ConversionErrorView<E>>(
            ConversionErrorView::FieldMissing { name: fields[k]@.name },
        ),
{
    match record {
        Ok(values) => {
            assert(field_outcome::<V, E, D>(fields[k], map, decode, Ok(values[k])));
            assert(false);
        },
        Err(e) => {
            if forall|i: int|
                0 <= i < k ==> field_never_fails::<V, E, D>(#[trigger] fields[i], map, decode) {
                let j = choose|j: int|
                    {
                        &&& 0 <= j < fields.len()
                        &&& #[trigger] field_outcome::<V, E, D>(fields[j], map, decode, Err(e))
                        &&& forall|i: int|
                            0 <= i < j ==> field_can_succeed::<V, E, D>(
                                #[trigger] fields[i],
                                map,
                                decode,
                            )
                    };
                if j < k {
                    assert(field_never_fails::<V, E, D>(fields[j], map, decode));
                    assert(false);
                }
                if j > k {
                    assert(field_can_succeed::<V, E, D>(fields[k], map, decode));
                    assert(false);
                }
                assert(j == k);
            }
        },
    }
}

/// An optional field whose key is absent is empty in every record that the
/// conversion gives, and does not fail the conversion: where no other field
/// can fail, a record is given.
pub proof fn lemma_absent_optional_field_is_empty<V, E, D: Fn(&Field, &String) -> Result<V, E>>(
    fields: Seq<Field>,
    map: Map<Seq<char>, String>,
    decode: D,
    record: Result<Seq<FieldValue<V>>, ConversionErrorView<E>>,
    k: int,
)
    requires
        converts(fields, map, decode, record),
        0 <= k < fields.len(),
        fields[k]@.modality == Modality::Optional,
        !map.contains_key(fields[k]@.name),
    ensures
        record matches Ok(values) ==> values[k] == FieldValue::<V>::Optional(None),
        (forall|i: int|
            0 <= i < fields.len() && i != k ==> field_never_fails::<V, E, D>(
                #[trigger] fields[i],
                map,
                decode,
            )) ==> record is Ok,
{
    if let Ok(values) = record {
        assert(field_outcome::<V, E, D>(fields[k], map, decode, Ok(values[k])));
    }
    if forall|i: int|
        0 <= i < fields.len() && i != k ==> field_never_fails::<V, E, D>(
            #[trigger] fields[i],
            map,
            decode,
        ) {
        assert(field_never_fails::<V, E, D>(fields[k], map, decode));
        lemma_conversion_succeeds(fields, map, decode, record);
    }
}

/// Of two required fields whose keys are both absent, the one declared first
/// is reported, where no field before it can fail.
pub proof fn lemma_first_missing_field_is_reported<V, E, D: Fn(&Field, &String) -> Result<V, E>>(
    fields: Seq<Field>,
    map: Map<Seq<char>, String>,
    decode: D,
    record: Result<Seq<FieldValue<V>>, ConversionErrorView<E>>,
    first: int,
    second: int,
)
    requires
        converts(fields, map, decode, record),
        0 <= first < second < fields.len(),
        fields[first]@.modality == Modality::Required,
        fields[second]@.modality == Modality::Required,
        !map.contains_key(fields[first]@.name),
        !map.contains_key(fields[second]@.name),
        forall|i: int|
            0 <= i < first ==> field_never_fails::<V, E, D>(#[trigger] fields[i], map, decode),
    ensures
        record == Err::<Seq<FieldValue<V>>, ConversionErrorView<E>>(
            ConversionErrorView::FieldMissing { name: fields[first]@.name },
        ),
{
    lemma_missing_required_field_fails(fields, map, decode, record, first);
}

} // verus!
