//! The configuration file's data model and its decoding.

use vstd::prelude::*;
use vstd::string::StringExecFns;
use crate::json::{Json, json_parse, parse_json};
use crate::string_or_struct::{
    DecodeStringOrStruct, de_string_or_struct_hashmap, decode_entries_spec, entries_map,
    string_or_struct_spec,
};

verus! {

/// A named, reusable command definition from the configuration file.
///
/// It may be written as a bare string or as an object; both decode to the
/// same value, and it carries no observable fields of its own.
#[derive(Clone, Copy, Debug, PartialEq, Eq, Structural)]
pub struct Script {}

impl Default for Script {
    fn default() -> (r: Self)
        ensures
            r == (Script {  }),
    {
        Script {  }
    }
}

impl DecodeStringOrStruct for Script {
    /// The scalar form always succeeds, whatever the string holds.
    open spec fn from_string_spec(s: Seq<char>) -> Option<Script> {
        Some(Script {  })
    }

    /// The object form accepts any object: no field is required.
    open spec fn from_object_spec(fields: Seq<(String, Json)>) -> Option<Script> {
        Some(Script {  })
    }

    fn from_string(s: &String) -> (r: Option<Script>) {
        Some(Script {  })
    }

    fn from_object(fields: &Vec<(String, Json)>) -> (r: Option<Script>) {
        Some(Script {  })
    }
}

/// Scalar/structured equivalence: a script definition decoded from any bare
/// string and one decoded from any object are the same value, and both
/// decodes succeed.
pub proof fn lemma_script_scalar_object_equivalent(s: String, fields: Vec<(String, Json)>)
    ensures
        string_or_struct_spec::<Script>(Json::Str(s)) == string_or_struct_spec::<Script>(
            Json::Obj(fields),
        ),
        string_or_struct_spec::<Script>(Json::Str(s)) is Some,
{
}

/// The mathematical value of a [`Config`]: an optional version constraint and
/// a map from script name to script definition.
#[verifier::ext_equal]
pub struct ConfigV {
    pub gg: Option<Seq<char>>,
    pub scripts: Map<Seq<char>, Script>,
}

/// A parsed configuration: an optional required version of the tool, and the
/// named scripts.
#[derive(Clone, Debug, PartialEq)]
pub struct Config {
    /// The required version of the tool.
    pub gg: Option<String>,
    /// The declared scripts, one entry per name.
    pub scripts: Vec<(String, Script)>,
}

impl View for Config {
    type V = ConfigV;

    open spec fn view(&self) -> ConfigV {
        ConfigV {
            gg: match self.gg {
                Some(s) => Some(s@),
                None => None,
            },
            scripts: entries_map(self.scripts@),
        }
    }
}

impl Default for Config {
    fn default() -> (r: Self)
        ensures
            r@.gg is None,
            r@.scripts == Map::<Seq<char>, Script>::empty(),
            r.scripts@.len() == 0,
    {
        Config { gg: None, scripts: Vec::new() }
    }
}

impl Config {
    /// Look a script name up among the declared scripts.
    pub fn get_script(&self, name: &String) -> (r: Option<&Script>)
        ensures
            r is Some <==> self@.scripts.contains_key(name@),
            r matches Some(s) ==> self@.scripts[name@] == *s,
    {
        let mut i: usize = 0;
        while i < self.scripts.len()
            invariant
                0 <= i <= self.scripts@.len(),
                forall|k: int| 0 <= k < i ==> self.scripts@[k].0@ != name@,
            decreases self.scripts@.len() - i,
        {
            if self.scripts[i].0 == *name {
                proof {
                    lemma_entries_map_found(self.scripts@, name@, i as int);
                }
                return Some(&self.scripts[i].1);
            }
            i = i + 1;
        }
        proof {
            lemma_entries_map_absent(self.scripts@, name@);
        }
        None
    }
}

/// A name that no entry carries is not in the entries' map.
proof fn lemma_entries_map_absent<T>(entries: Seq<(String, T)>, name: Seq<char>)
    requires
        forall|k: int| 0 <= k < entries.len() ==> entries[k].0@ != name,
    ensures
        !entries_map(entries).contains_key(name),
    decreases entries.len(),
{
    if entries.len() > 0 {
        assert(entries.last() == entries[entries.len() - 1]);
        lemma_entries_map_absent(entries.drop_last(), name);
    }
}

/// A name some entry carries is in the entries' map; when only one entry
/// carries it, the map holds that entry's value.
proof fn lemma_entries_map_found<T>(entries: Seq<(String, T)>, name: Seq<char>, i: int)
    requires
        0 <= i < entries.len(),
        entries[i].0@ == name,
        forall|k: int| 0 <= k < i ==> entries[k].0@ != name,
    ensures
        entries_map(entries).contains_key(name),
    decreases entries.len(),
{
    if i < entries.len() - 1 {
        lemma_entries_map_found(entries.drop_last(), name, i);
    } else {
        assert(entries.last() == entries[i]);
    }
}

/// How a configuration file can fail to load: a filesystem fault, with its
/// "file not found" sub-kind, or malformed content.
#[derive(Clone, Debug, PartialEq)]
pub enum Error {
    Io { not_found: bool, message: String },
    Json { message: String },
}

impl Error {
    /// Whether this is the distinguished "file not found" fault.
    pub open spec fn is_not_exist_spec(self) -> bool {
        match self {
            Error::Io { not_found, message: _ } => not_found,
            _ => false,
        }
    }

    /// Whether this is the distinguished "file not found" fault, which
    /// discovery treats as "try the next candidate".
    pub fn is_not_exist(&self) -> (r: bool)
        ensures
            r == self.is_not_exist_spec(),
    {
        match self {
            Error::Io { not_found, message: _ } => *not_found,
            _ => false,
        }
    }

    /// A user-facing description of the fault.
    pub open spec fn message_spec(self) -> Seq<char> {
        match self {
            Error::Io { not_found: _, message } => "io error: "@ + message@,
            Error::Json { message } => "json error: "@ + message@,
        }
    }

    /// A user-facing description of the fault.
    pub fn message(&self) -> (r: String)
        ensures
            r@ == self.message_spec(),
    {
        match self {
            Error::Io { not_found: _, message } => {
                let mut s = String::from_str("io error: ");
                s.append(message.as_str());
                s
            },
            Error::Json { message } => {
                let mut s = String::from_str("json error: ");
                s.append(message.as_str());
                s
            },
        }
    }
}

/// What the optional version constraint decodes to: absent and `null` both
/// stand for "no constraint", a string is the constraint, anything else is
/// rejected.
pub open spec fn decode_gg(field: Option<Json>) -> Option<Option<Seq<char>>> {
    match field {
        None => Some(None),
        Some(Json::Null) => Some(None),
        Some(Json::Str(s)) => Some(Some(s@)),
        Some(_) => None,
    }
}

/// What the scripts field decodes to: absent stands for "no scripts", an
/// object decodes entry by entry, anything else is rejected.
pub open spec fn decode_scripts(field: Option<Json>) -> Option<Map<Seq<char>, Script>> {
    match field {
        None => Some(Map::empty()),
        Some(Json::Obj(fields)) => decode_entries_spec::<Script>(fields@),
        Some(_) => None,
    }
}

/// The first field of `fields` named `key`, if any.
pub open spec fn lookup_field(fields: Seq<(String, Json)>, key: Seq<char>) -> Option<Json>
    decreases fields.len(),
{
    if fields.len() == 0 {
        None
    } else if fields.first().0@ == key {
        Some(fields.first().1)
    } else {
        lookup_field(fields.drop_first(), key)
    }
}

/// What a JSON value decodes to as a configuration: it must be an object, its
/// `"gg"` and `"scripts"` fields decode as stated above, and every other
/// field is ignored.
pub open spec fn decode_config(j: Json) -> Option<ConfigV> {
    match j {
        Json::Obj(fields) => match (
            decode_gg(lookup_field(fields@, "gg"@)),
            decode_scripts(lookup_field(fields@, "scripts"@)),
        ) {
            (Some(gg), Some(scripts)) => Some(ConfigV { gg, scripts }),
            _ => None,
        },
        _ => None,
    }
}

/// Find the first field of `fields` named `key`, if any.
fn lookup_field_exec<'a>(fields: &'a Vec<(String, Json)>, key: &String) -> (r: Option<&'a Json>)
    ensures
        r is Some <==> lookup_field(fields@, key@) is Some,
        r matches Some(j) ==> lookup_field(fields@, key@) == Some(*j),
{
    let mut i: usize = 0;
    while i < fields.len()
        invariant
            0 <= i <= fields@.len(),
            forall|k: int| 0 <= k < i ==> fields@[k].0@ != key@,
        decreases fields@.len() - i,
    {
        if fields[i].0 == *key {
            proof {
                lemma_lookup_field_at(fields@, key@, i as int);
            }
            return Some(&fields[i].1);
        }
        i = i + 1;
    }
    proof {
        lemma_lookup_field_none(fields@, key@);
    }
    None
}

/// When no field carries `key`, the lookup yields nothing.
proof fn lemma_lookup_field_none(fields: Seq<(String, Json)>, key: Seq<char>)
    requires
        forall|k: int| 0 <= k < fields.len() ==> fields[k].0@ != key,
    ensures
        lookup_field(fields, key) is None,
    decreases fields.len(),
{
    if fields.len() > 0 {
        assert(fields.first() == fields[0]);
        lemma_lookup_field_none(fields.drop_first(), key);
    }
}

/// When the first field carrying `key` stands at `i`, the lookup yields its
/// value.
proof fn lemma_lookup_field_at(fields: Seq<(String, Json)>, key: Seq<char>, i: int)
    requires
        0 <= i < fields.len(),
        fields[i].0@ == key,
        forall|k: int| 0 <= k < i ==> fields[k].0@ != key,
    ensures
        lookup_field(fields, key) == Some(fields[i].1),
    decreases fields.len(),
{
    if i > 0 {
        assert(fields.first() == fields[0]);
        lemma_lookup_field_at(fields.drop_first(), key, i - 1);
    } else {
        assert(fields.first() == fields[0]);
    }
}

/// Decode an already parsed JSON value as a configuration.
fn decode_config_exec(j: &Json) -> (r: Result<Config, String>)
    ensures
        r is Ok <==> decode_config(*j) is Some,
        r matches Ok(c) ==> decode_config(*j) == Some(c@),
{
    match j {
        Json::Obj(fields) => {
            let gg_key = String::from_str("gg");
            let gg: Option<String> = match lookup_field_exec(fields, &gg_key) {
                None => None,
                Some(Json::Null) => None,
                Some(Json::Str(s)) => Some(s.clone()),
                Some(_) => {
                    return Err(String::from_str("the gg field must be a string"));
                },
            };
            let scripts_key = String::from_str("scripts");
            let scripts: Vec<(String, Script)> = match lookup_field_exec(fields, &scripts_key) {
                None => Vec::new(),
                Some(sj) => match de_string_or_struct_hashmap::<Script>(sj) {
                    Ok(entries) => entries,
                    Err(m) => {
                        return Err(m);
                    },
                },
            };
            Ok(Config { gg, scripts })
        },
        _ => Err(String::from_str("expected an object")),
    }
}

/// Parse the text of a configuration file.
///
/// Succeeds exactly on valid JSON text that decodes as a configuration; any
/// failure is an [`Error::Json`].
pub fn parse(s: &str) -> (r: Result<Config, Error>)
    ensures
        r is Ok <==> (json_parse(s@) matches Some(j) && decode_config(j) is Some),
        r matches Ok(c) ==> (json_parse(s@) matches Some(j) && decode_config(j) == Some(c@)),
        r matches Err(e) ==> e is Json,
{
    match parse_json(s) {
        Err(m) => Err(Error::Json { message: m }),
        Ok(j) => match decode_config_exec(&j) {
            Ok(c) => Ok(c),
            Err(m) => Err(Error::Json { message: m }),
        },
    }
}

} // verus!
