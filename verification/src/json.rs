use vstd::prelude::*;
use crate::models::GeneratedFile;

verus! {

/// A structured value as decoded from a JSON document, held in plain form so
/// the response schema of the Generation Service can be checked and read by
/// verified code. Object fields keep their document order; a lookup takes
/// the first match.
#[derive(Debug)]
pub enum JsonValue {
    Null,
    Bool(bool),
    Int(i64),
    Str(String),
    Arr(Vec<JsonValue>),
    Obj(Vec<(String, JsonValue)>),
}

/// The first field with this key, if any.
pub open spec fn field_of(fields: Seq<(String, JsonValue)>, key: Seq<char>) -> Option<JsonValue>
    decreases fields.len(),
{
    if fields.len() == 0 {
        None
    } else if fields[0].0@ == key {
        Some(fields[0].1)
    } else {
        field_of(fields.drop_first(), key)
    }
}

/// Member lookup: the first field with this key of an object, else nothing.
pub open spec fn get_of(v: JsonValue, key: Seq<char>) -> Option<JsonValue> {
    match v {
        JsonValue::Obj(fields) => field_of(fields@, key),
        _ => None,
    }
}

proof fn lemma_field_of_found(fields: Seq<(String, JsonValue)>, key: Seq<char>, i: int)
    requires
        0 <= i < fields.len(),
        fields[i].0@ == key,
        forall|j: int| 0 <= j < i ==> #[trigger] fields[j].0@ != key,
    ensures
        field_of(fields, key) == Some(fields[i].1),
    decreases i,
{
    if i > 0 {
        lemma_field_of_found(fields.drop_first(), key, i - 1);
    }
}

proof fn lemma_field_of_absent(fields: Seq<(String, JsonValue)>, key: Seq<char>)
    requires
        forall|j: int| 0 <= j < fields.len() ==> #[trigger] fields[j].0@ != key,
    ensures
        field_of(fields, key) is None,
    decreases fields.len(),
{
    if fields.len() > 0 {
        lemma_field_of_absent(fields.drop_first(), key);
    }
}

impl JsonValue {
    /// The first member with this key, if `self` is an object holding one.
    pub fn get<'a>(&'a self, key: &str) -> (r: Option<&'a JsonValue>)
        ensures
            match r {
                Some(p) => get_of(*self, key@) == Some(*p),
                None => get_of(*self, key@) is None,
            },
    {
        match self {
            JsonValue::Obj(fields) => {
                let mut i: usize = 0;
                while i < fields.len()
                    invariant
                        *self == JsonValue::Obj(*fields),
                        i <= fields@.len(),
                        forall|j: int| 0 <= j < i ==> #[trigger] fields@[j].0@ != key@,
                    decreases fields@.len() - i,
                {
                    if crate::validation::str_eq(fields[i].0.as_str(), key) {
                        let p = &fields[i].1;
                        proof {
                            lemma_field_of_found(fields@, key@, i as int);
                            assert(*self == JsonValue::Obj(*fields));
                            assert(get_of(*self, key@) == field_of(fields@, key@));
                            assert(*p == fields@[i as int].1);
                        }
                        return Some(p);
                    }
                    i += 1;
                }
                proof {
                    lemma_field_of_absent(fields@, key@);
                }
                None
            },
            _ => None,
        }
    }
}

/// The `data` member of a response, or `Null` where there is none.
pub open spec fn data_of(v: JsonValue) -> JsonValue {
    match get_of(v, "data"@) {
        Some(d) => d,
        None => JsonValue::Null,
    }
}

/// The elements of `data.files`, empty where it is not an array.
pub open spec fn files_arr(v: JsonValue) -> Seq<JsonValue> {
    match get_of(data_of(v), "files"@) {
        Some(JsonValue::Arr(a)) => a@,
        _ => Seq::empty(),
    }
}

/// The text of `data.output`, empty where the member is absent.
pub open spec fn response_output(v: JsonValue) -> Seq<char> {
    match get_of(data_of(v), "output"@) {
        Some(JsonValue::Str(s)) => s@,
        _ => Seq::empty(),
    }
}

/// The string member with this key of a file entry, if it is one.
pub open spec fn file_field_str(f: JsonValue, key: Seq<char>) -> Option<Seq<char>> {
    match get_of(f, key) {
        Some(JsonValue::Str(s)) => Some(s@),
        _ => None,
    }
}

/// A file entry carrying the three required string members.
pub open spec fn file_well_formed(f: JsonValue) -> bool {
    &&& file_field_str(f, "name"@) is Some
    &&& file_field_str(f, "content"@) is Some
    &&& file_field_str(f, "language"@) is Some
}

/// The extracted form of a file entry: the three strings carried over, the
/// optional members left empty.
pub open spec fn extracted_file(f: JsonValue, g: GeneratedFile) -> bool {
    &&& Some(g.name@) == file_field_str(f, "name"@)
    &&& Some(g.content@) == file_field_str(f, "content"@)
    &&& Some(g.language@) == file_field_str(f, "language"@)
    &&& g.size is None
    &&& g.last_modified is None
}

/// The response schema of a successful generation call: a `data` object
/// whose `files` member is an array of well-formed file entries, and whose
/// `output` member, when present, is a string.
pub open spec fn response_well_formed(v: JsonValue) -> bool {
    &&& get_of(v, "data"@) is Some
    &&& (match get_of(data_of(v), "files"@) {
        Some(JsonValue::Arr(_)) => true,
        _ => false,
    })
    &&& (forall|k: int| 0 <= k < files_arr(v).len() ==> file_well_formed(#[trigger] files_arr(v)[k]))
    &&& (match get_of(data_of(v), "output"@) {
        None => true,
        Some(JsonValue::Str(_)) => true,
        Some(_) => false,
    })
}

/// Reads the files and the output text out of a decoded generation response.
/// A payload that does not match the schema is rejected rather than defaulted:
/// the result is the files of `data.files` in their order — each as its three
/// string members — and the `data.output` text (empty when absent), exactly
/// when the response is well-formed.
pub fn parse_generation_response(v: &JsonValue) -> (r: Option<(Vec<GeneratedFile>, String)>)
    ensures
        r is Some <==> response_well_formed(*v),
        r matches Some(p) ==> {
            &&& p.0@.len() == files_arr(*v).len()
            &&& forall|k: int|
                0 <= k < p.0@.len() ==> extracted_file(files_arr(*v)[k], #[trigger] p.0@[k])
            &&& p.1@ == response_output(*v)
        },
{
    let data = match v.get("data") {
        Some(d) => d,
        None => {
            return None;
        },
    };
    let files_v = match data.get("files") {
        Some(f) => f,
        None => {
            return None;
        },
    };
    let arr = match files_v {
        JsonValue::Arr(a) => a,
        _ => {
            return None;
        },
    };
    let output: String = match data.get("output") {
        None => String::new(),
        Some(o) => match o {
            JsonValue::Str(s) => s.clone(),
            _ => {
                return None;
            },
        },
    };
    let mut files: Vec<GeneratedFile> = Vec::new();
    let mut i: usize = 0;
    while i < arr.len()
        invariant
            i <= arr@.len(),
            arr@ == files_arr(*v),
            files@.len() == i,
            forall|k: int| 0 <= k < i ==> file_well_formed(#[trigger] arr@[k]),
            forall|k: int| 0 <= k < i ==> extracted_file(arr@[k], #[trigger] files@[k]),
        decreases arr@.len() - i,
    {
        let entry = &arr[i];
        let name: String = match entry.get("name") {
            Some(n) => match n {
                JsonValue::Str(s) => s.clone(),
                _ => {
                    return None;
                },
            },
            None => {
                return None;
            },
        };
        let content: String = match entry.get("content") {
            Some(c) => match c {
                JsonValue::Str(s) => s.clone(),
                _ => {
                    return None;
                },
            },
            None => {
                return None;
            },
        };
        let language: String = match entry.get("language") {
            Some(l) => match l {
                JsonValue::Str(s) => s.clone(),
                _ => {
                    return None;
                },
            },
            None => {
                return None;
            },
        };
        files.push(
            GeneratedFile { name, content, language, size: None, last_modified: None },
        );
        i += 1;
    }
    Some((files, output))
}

} // verus!
