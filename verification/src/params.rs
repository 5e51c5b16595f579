//! The two files of a run and where they are found.
use vstd::prelude::*;

verus! {

/// The schema path used when the command line names none.
pub const DEFAULT_SCHEMA: &'static str = "data/CanWebElmSchema.json";

/// Which of the two files of a run is meant.
#[derive(Clone, Copy, Debug, PartialEq, Eq, Structural)]
pub enum Role {
    /// The JSON Schema document.
    Schema,
    /// The JSON document that is held against the schema.
    Layout,
}

/// The paths of the two files of a run.
#[derive(Clone, Debug)]
pub struct Params {
    pub schema_file: String,
    pub layout_file: String,
}

/// The mathematical value of [`Params`].
pub ghost struct ParamsModel {
    pub schema_file: Seq<char>,
    pub layout_file: Seq<char>,
}

impl ParamsModel {
    /// The path of the file with the given role.
    pub open spec fn path(self, role: Role) -> Seq<char> {
        match role {
            Role::Schema => self.schema_file,
            Role::Layout => self.layout_file,
        }
    }
}

impl DeepView for Params {
    type V = ParamsModel;

    open spec fn deep_view(&self) -> ParamsModel {
        ParamsModel { schema_file: self.schema_file@, layout_file: self.layout_file@ }
    }
}

/// The schema path that a run uses: the one given, else the default.
pub open spec fn resolved_schema(schema: Option<Seq<char>>, default_schema: Seq<char>) -> Seq<char> {
    match schema {
        Some(path) => path,
        None => default_schema,
    }
}

impl Params {
    /// Builds the parameters of a run from what the command line gave: the
    /// value of the schema option, if it was present, and the layout path.
    /// `default_schema` stands in for an absent schema option.
    pub fn resolve(schema: Option<String>, layout: String, default_schema: &str) -> (params: Params)
        ensures
            params.deep_view() == (ParamsModel {
                schema_file: resolved_schema(
                    match schema {
                        Some(path) => Some(path@),
                        None => None,
                    },
                    default_schema@,
                ),
                layout_file: layout@,
            }),
    {
        let schema_file = match schema {
            Some(path) => path,
            None => default_schema.to_owned(),
        };
        Params { schema_file, layout_file: layout }
    }

    /// The path of the file with the given role.
    pub fn path(&self, role: Role) -> (path: &String)
        ensures
            path@ == self.deep_view().path(role),
    {
        match role {
            Role::Schema => &self.schema_file,
            Role::Layout => &self.layout_file,
        }
    }
}

} // verus!
