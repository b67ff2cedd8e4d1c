//! The five architectural layers and the mapping from a layer and a slice
//! name to the slice's root path and segment list.

use vstd::prelude::*;

verus! {

/// Error for a slice name that is missing or empty.
#[derive(Debug, Clone, PartialEq, Eq)]
pub struct ValidationError;

impl ValidationError {
    /// A human-readable description of the failure.
    pub fn message(&self) -> (r: String)
        ensures
            r@ == "slice name is missing or empty"@,
    {
        "slice name is missing or empty".to_owned()
    }
}

/// The slice name given for a layer on the command line.
#[derive(Debug, Clone, PartialEq, Eq, Hash)]
pub struct LayerArgs {
    pub name: Option<String>,
}

/// A layer selection together with the slice name it was invoked with.
#[derive(Debug, Clone, PartialEq, Eq, Hash)]
pub enum Layers {
    Page(LayerArgs),
    Widget(LayerArgs),
    Feature(LayerArgs),
    Entity(LayerArgs),
    Shared(LayerArgs),
}

/// The display name of a layer kind.
pub open spec fn display_of(l: Layers) -> Seq<char> {
    match l {
        Layers::Page(_) => "Page"@,
        Layers::Widget(_) => "Widget"@,
        Layers::Feature(_) => "Feature"@,
        Layers::Entity(_) => "Entity"@,
        Layers::Shared(_) => "Shared"@,
    }
}

/// The plural directory prefix under which a layer's slices live.
pub open spec fn plural_of(l: Layers) -> Seq<char> {
    match l {
        Layers::Page(_) => "pages"@,
        Layers::Widget(_) => "widgets"@,
        Layers::Feature(_) => "features"@,
        Layers::Entity(_) => "entities"@,
        Layers::Shared(_) => "shared"@,
    }
}

/// The slice name argument carried by a layer value.
pub open spec fn raw_name_of(l: Layers) -> Option<String> {
    match l {
        Layers::Page(a) => a.name,
        Layers::Widget(a) => a.name,
        Layers::Feature(a) => a.name,
        Layers::Entity(a) => a.name,
        Layers::Shared(a) => a.name,
    }
}

/// A layer value is well formed when its slice name is present and non-empty.
pub open spec fn has_valid_name(l: Layers) -> bool {
    &&& raw_name_of(l) is Some
    &&& raw_name_of(l)->0@.len() > 0
}

/// The slice name of a well-formed layer value.
pub open spec fn name_of(l: Layers) -> Seq<char>
    recommends
        has_valid_name(l),
{
    raw_name_of(l)->0@
}

/// The root path of a slice: `./{plural}/{name}`.
pub open spec fn root_path_of(l: Layers) -> Seq<char>
    recommends
        has_valid_name(l),
{
    "./"@ + plural_of(l) + "/"@ + name_of(l)
}

/// The fixed segment names of every slice, in barrel-export order.
pub open spec fn segment_names() -> Seq<Seq<char>> {
    seq!["ui"@, "model"@, "lib"@, "api"@]
}

impl Layers {
    /// The layer's slice name argument.
    fn arg(&self) -> (r: &LayerArgs)
        ensures
            r.name == raw_name_of(*self),
    {
        match self {
            Layers::Page(a) => a,
            Layers::Widget(a) => a,
            Layers::Feature(a) => a,
            Layers::Entity(a) => a,
            Layers::Shared(a) => a,
        }
    }

    /// The plural directory prefix for this layer.
    fn plural(&self) -> (r: &'static str)
        ensures
            r@ == plural_of(*self),
    {
        match self {
            Layers::Page(_) => "pages",
            Layers::Widget(_) => "widgets",
            Layers::Feature(_) => "features",
            Layers::Entity(_) => "entities",
            Layers::Shared(_) => "shared",
        }
    }

    /// The display name of the layer kind.
    pub fn value(&self) -> (r: String)
        ensures
            r@ == display_of(*self),
    {
        match self {
            Layers::Page(_) => "Page".to_owned(),
            Layers::Widget(_) => "Widget".to_owned(),
            Layers::Feature(_) => "Feature".to_owned(),
            Layers::Entity(_) => "Entity".to_owned(),
            Layers::Shared(_) => "Shared".to_owned(),
        }
    }

    /// The slice name, or a validation error when it is missing or empty.
    pub fn name(&self) -> (r: Result<String, ValidationError>)
        ensures
            r is Ok <==> has_valid_name(*self),
            r is Ok ==> r->Ok_0@ == name_of(*self),
    {
        match &self.arg().name {
            Some(n) => {
                if n.as_str().is_empty() {
                    Err(ValidationError)
                } else {
                    Ok(n.clone())
                }
            },
            None => Err(ValidationError),
        }
    }

    /// The slice's root path `./{plural}/{name}`, or a validation error when
    /// the name is missing or empty.
    pub fn get_path(&self) -> (r: Result<String, ValidationError>)
        ensures
            r is Ok <==> has_valid_name(*self),
            r is Ok ==> r->Ok_0@ == root_path_of(*self),
    {
        let name = match self.name() {
            Ok(n) => n,
            Err(e) => {
                return Err(e);
            },
        };
        let mut p = String::new();
        p.append("./");
        p.append(self.plural());
        p.append("/");
        p.append(name.as_str());
        proof {
            assert(p@ =~= root_path_of(*self));
        }
        Ok(p)
    }

    /// The fixed segment list `ui`, `model`, `lib`, `api`.
    pub fn get_segments(&self) -> (r: Vec<String>)
        ensures
            r@.len() == segment_names().len(),
            forall|i: int| 0 <= i < r@.len() ==> r@[i]@ == segment_names()[i],
    {
        let mut r: Vec<String> = Vec::new();
        r.push("ui".to_owned());
        r.push("model".to_owned());
        r.push("lib".to_owned());
        r.push("api".to_owned());
        r
    }
}

} // verus!
