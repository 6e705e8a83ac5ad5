//! The flexible decoder: a map entry's value may be given either as a bare
//! string or as a structured object, and both forms decode to one value of the
//! target type.

use vstd::prelude::*;
use vstd::string::StringExecFns;
use crate::json::Json;

verus! {

/// A type that can be decoded from either of the two permissible shapes: a
/// scalar string (through a fallible constructor) or a structured object.
pub trait DecodeStringOrStruct: Sized {
    /// What the scalar-form constructor yields on `s`; `None` when it fails.
    /// Unless the implementation says otherwise, the form is rejected.
    open spec fn from_string_spec(s: Seq<char>) -> Option<Self> {
        None
    }

    /// What the structured decode yields on an object with fields `fields`;
    /// `None` when a field is missing or invalid. Unless the implementation
    /// says otherwise, the form is rejected.
    open spec fn from_object_spec(fields: Seq<(String, Json)>) -> Option<Self> {
        None
    }

    /// Construct from the scalar string form.
    fn from_string(s: &String) -> (r: Option<Self>)
        ensures
            r == Self::from_string_spec(s@),
    ;

    /// Construct from the structured object form.
    fn from_object(fields: &Vec<(String, Json)>) -> (r: Option<Self>)
        ensures
            r == Self::from_object_spec(fields@),
    ;
}

/// What decoding a single string-or-struct value yields: the scalar
/// constructor on a string, the structured decode on an object, and a failure
/// on any other shape.
pub open spec fn string_or_struct_spec<T: DecodeStringOrStruct>(j: Json) -> Option<T> {
    match j {
        Json::Str(s) => T::from_string_spec(s@),
        Json::Obj(fields) => T::from_object_spec(fields@),
        _ => None,
    }
}

/// Decode one value that may be given as a bare string or as an object.
///
/// The error is a short description of the rejected shape.
pub fn de_string_or_struct<T: DecodeStringOrStruct>(j: &Json) -> (r: Result<T, String>)
    ensures
        r is Ok <==> string_or_struct_spec::<T>(*j) is Some,
        r matches Ok(t) ==> string_or_struct_spec::<T>(*j) == Some(t),
{
    match j {
        Json::Str(s) => match T::from_string(s) {
            Some(t) => Ok(t),
            None => Err(String::from_str("invalid string form")),
        },
        Json::Obj(fields) => match T::from_object(fields) {
            Some(t) => Ok(t),
            None => Err(String::from_str("invalid object form")),
        },
        _ => Err(String::from_str("expected string or map")),
    }
}

/// What decoding every entry of an object as a string-or-struct value yields,
/// as a map from entry name to decoded value; `None` as soon as one entry
/// fails. A name given twice keeps its later value.
pub open spec fn decode_entries_spec<T: DecodeStringOrStruct>(
    fields: Seq<(String, Json)>,
) -> Option<Map<Seq<char>, T>>
    decreases fields.len(),
{
    if fields.len() == 0 {
        Some(Map::empty())
    } else {
        match decode_entries_spec::<T>(fields.drop_last()) {
            None => None,
            Some(m) => match string_or_struct_spec::<T>(fields.last().1) {
                None => None,
                Some(t) => Some(m.insert(fields.last().0@, t)),
            },
        }
    }
}

/// The map that a sequence of named entries stands for; a name given twice
/// keeps its later value.
pub open spec fn entries_map<T>(entries: Seq<(String, T)>) -> Map<Seq<char>, T>
    decreases entries.len(),
{
    if entries.len() == 0 {
        Map::empty()
    } else {
        entries_map(entries.drop_last()).insert(entries.last().0@, entries.last().1)
    }
}

/// Decode a whole named map whose values may each be given as a bare string
/// or as an object. Fails when `j` is not an object, or when an entry fails.
pub fn de_string_or_struct_hashmap<T: DecodeStringOrStruct>(j: &Json) -> (r: Result<
    Vec<(String, T)>,
    String,
>)
    ensures
        r is Ok <==> (j matches Json::Obj(fields) && decode_entries_spec::<T>(fields@) is Some),
        r matches Ok(entries) ==> (j matches Json::Obj(fields) && Some(entries_map(entries@))
            == decode_entries_spec::<T>(fields@)),
{
    match j {
        Json::Obj(fields) => {
            let mut out: Vec<(String, T)> = Vec::new();
            let mut i: usize = 0;
            while i < fields.len()
                invariant
                    j matches Json::Obj(ff) && ff@ == fields@,
                    0 <= i <= fields@.len(),
                    decode_entries_spec::<T>(fields@.take(i as int)) == Some(
                        entries_map(out@),
                    ),
                decreases fields@.len() - i,
            {
                match de_string_or_struct::<T>(&fields[i].1) {
                    Ok(t) => {
                        let ghost out0 = out@;
                        let name = fields[i].0.clone();
                        out.push((name, t));
                        proof {
                            assert(fields@.take(i as int + 1).drop_last() =~= fields@.take(
                                i as int,
                            ));
                            assert(fields@.take(i as int + 1).last() == fields@[i as int]);
                            assert(out@.drop_last() =~= out0);
                        }
                    },
                    Err(m) => {
                        proof {
                            lemma_decode_entries_prefix_fail::<T>(fields@, i as int);
                        }
                        return Err(m);
                    },
                }
                i = i + 1;
            }
            proof {
                assert(fields@.take(fields@.len() as int) =~= fields@);
            }
            Ok(out)
        },
        _ => Err(String::from_str("expected a map")),
    }
}

/// When one entry of `fields` fails to decode, the whole map fails, whatever
/// the later entries hold.
proof fn lemma_decode_entries_prefix_fail<T: DecodeStringOrStruct>(
    fields: Seq<(String, Json)>,
    i: int,
)
    requires
        0 <= i < fields.len(),
        string_or_struct_spec::<T>(fields[i].1) is None,
    ensures
        decode_entries_spec::<T>(fields) is None,
    decreases fields.len(),
{
    if fields.len() > 0 {
        if i < fields.len() - 1 {
            lemma_decode_entries_prefix_fail::<T>(fields.drop_last(), i);
        } else {
            assert(fields.last() == fields[i]);
        }
    }
}

} // verus!
