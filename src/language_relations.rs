use vstd::prelude::*;
use vstd::string::StringExecFns;

verus! {

/// The query text that lists the values of the `LanguageRelation` type.
pub const LANGUAGE_RELATIONS_QUERY: &'static str = "
    {
        language_relations: __type(name: \"LanguageRelation\") {
            enumValues {
                name
            }
        }
    }
";

/// The variables of the language relations query: it takes none.
#[derive(Debug, Clone, Default, PartialEq)]
pub struct Variables {}

impl Variables {
    /// The JSON text of these variables: an empty object.
    pub fn to_json(&self) -> (r: String)
        ensures
            r@ == "{}"@,
    {
        String::from_str("{}")
    }
}

/// One value of the `LanguageRelation` type.
#[derive(Debug, Clone, PartialEq)]
pub struct LanguageRelationValue {
    pub name: String,
}

/// The values that the type definition lists.
#[derive(Debug, Clone, PartialEq)]
pub struct LanguageRelationDefinition {
    pub enum_values: Vec<LanguageRelationValue>,
}

/// The data of a language relations response.
#[derive(Debug, Clone, PartialEq)]
pub struct LanguageRelationsResponseData {
    pub language_relations: LanguageRelationDefinition,
}

impl Default for LanguageRelationsResponseData {
    /// The "no data yet" value that stands in application state before any
    /// response arrives: a definition that lists no values.
    fn default() -> (r: LanguageRelationsResponseData)
        ensures
            r.language_relations.enum_values@.len() == 0,
    {
        LanguageRelationsResponseData {
            language_relations: LanguageRelationDefinition { enum_values: Vec::new() },
        }
    }
}

} // verus!
