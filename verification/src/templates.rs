use std::collections::HashMap;

use convert_case::{Case, Casing};
use vstd::prelude::*;

verus! {

/// What a template descriptor file declares: the template's name and
/// description, and free-form extra settings.
pub struct TemplateFile {
    pub name: String,
    pub description: String,
    pub extra: Option<HashMap<String, String>>,
}

/// A template a repository offers: where it lies, its identifier, and what
/// its descriptor declared.
pub struct Template {
    path: String,
    id: String,
    name: String,
    description: String,
    extra: HashMap<String, String>,
}

pub ghost struct TemplateV {
    pub path: Seq<char>,
    pub id: Seq<char>,
    pub name: Seq<char>,
    pub description: Seq<char>,
    pub extra: Map<String, String>,
}

impl View for Template {
    type V = TemplateV;

    closed spec fn view(&self) -> TemplateV {
        TemplateV {
            path: self.path@,
            id: self.id@,
            name: self.name@,
            description: self.description@,
            extra: self.extra@,
        }
    }
}

impl Template {
    pub fn new(
        path: String,
        id: String,
        name: String,
        description: String,
        extra: HashMap<String, String>,
    ) -> (r: Self)
        ensures
            r@ == (TemplateV {
                path: path@,
                id: id@,
                name: name@,
                description: description@,
                extra: extra@,
            }),
    {
        Self { path, id, name, description, extra }
    }

    pub fn path(&self) -> (r: &String)
        ensures
            r@ == self@.path,
    {
        &self.path
    }

    pub fn name(&self) -> (r: &str)
        ensures
            r@ == self@.name,
    {
        self.name.as_str()
    }

    pub fn id(&self) -> (r: &str)
        ensures
            r@ == self@.id,
    {
        self.id.as_str()
    }

    pub fn extra(&self) -> (r: &HashMap<String, String>)
        ensures
            r@ == self@.extra,
    {
        &self.extra
    }

    pub fn description(&self) -> (r: &str)
        ensures
            r@ == self@.description,
    {
        self.description.as_str()
    }
}

/// Collects the templates a repository's local checkout offers. Walking
/// the folder tree and reading descriptor files is the embedder's; each
/// descriptor found is turned into a [`Template`] by
/// [`template_from_descriptor`].
pub struct Collector {
    local_folder: String,
}

impl View for Collector {
    type V = Seq<char>;

    closed spec fn view(&self) -> Seq<char> {
        self.local_folder@
    }
}

impl Collector {
    pub fn new(local_folder: String) -> (r: Self)
        ensures
            r@ == local_folder@,
    {
        Self { local_folder }
    }

    /// The folder this collector walks.
    pub fn local_folder(&self) -> (r: &String)
        ensures
            r@ == self@,
    {
        &self.local_folder
    }
}

/// What the snake-case rendering of a text is. Decided by the convert_case
/// crate; a function of the characters alone.
pub uninterp spec fn snake_of(s: Seq<char>) -> Seq<char>;

/// Relies on convert_case's `to_case` with the snake case: the rendering
/// depends on the characters alone.
#[verifier::external_body]
pub fn to_snake_case(s: &str) -> (r: String)
    ensures
        r@ == snake_of(s@),
{
    s.to_case(Case::Snake)
}

/// A project's name in canonical form: its snake-case rendering.
pub fn project_name_parser(project_name: &str) -> (r: Result<String, String>)
    ensures
        r matches Ok(n) && n@ == snake_of(project_name@),
{
    Ok(to_snake_case(project_name))
}

/// The template a descriptor file yields. Its identifier is the
/// snake-cased name of the directory holding the descriptor; a directory
/// without a usable name falls back to the snake-cased declared name. The
/// path is the descriptor's directory, and missing extra settings read as
/// empty.
pub fn template_from_descriptor(
    dir_path: String,
    dir_name: Option<String>,
    file: TemplateFile,
) -> (r: Template)
    ensures
        r@.path == dir_path@,
        r@.name == file.name@,
        r@.description == file.description@,
        r@.id == snake_of(
            match dir_name {
                Some(d) => d@,
                None => file.name@,
            },
        ),
        r@.extra == (match file.extra {
            Some(e) => e@,
            None => Map::<String, String>::empty(),
        }),
{
    let id = match &dir_name {
        Some(d) => to_snake_case(d.as_str()),
        None => to_snake_case(file.name.as_str()),
    };
    let extra = match file.extra {
        Some(e) => e,
        None => HashMap::new(),
    };
    Template { path: dir_path, id, name: file.name, description: file.description, extra }
}

/// A character's code with ASCII upper case folded onto lower case.
pub open spec fn spec_lower_code(c: char) -> int {
    if 'A' <= c && c <= 'Z' {
        c as int + 32
    } else {
        c as int
    }
}

/// ASCII-case-insensitive equality of two texts.
pub open spec fn spec_eq_ignore_ascii_case(a: Seq<char>, b: Seq<char>) -> bool {
    a.len() == b.len() && (forall|i: int|
        0 <= i < a.len() ==> spec_lower_code(a[i]) == spec_lower_code(#[trigger] b[i]))
}

/// ASCII-case-insensitive comparison of two texts.
pub fn chars_eq_ignore_ascii_case(a: &str, b: &str) -> (r: bool)
    ensures
        r == spec_eq_ignore_ascii_case(a@, b@),
{
    let la = a.unicode_len();
    let lb = b.unicode_len();
    if la != lb {
        return false;
    }
    let mut i: usize = 0;
    while i < la
        invariant
            i <= la,
            la == a@.len(),
            la == b@.len(),
            forall|j: int| 0 <= j < i ==> spec_lower_code(a@[j]) == spec_lower_code(#[trigger] b@[j]),
        decreases la - i,
    {
        let ca = a.get_char(i);
        let cb = b.get_char(i);
        let fa: u32 = if 'A' <= ca && ca <= 'Z' {
            ca as u32 + 32
        } else {
            ca as u32
        };
        let fb: u32 = if 'A' <= cb && cb <= 'Z' {
            cb as u32 + 32
        } else {
            cb as u32
        };
        if fa != fb {
            return false;
        }
        i = i + 1;
    }
    true
}

/// The index of the last template whose declared name matches `name`
/// ASCII-case-insensitively; nothing when none matches.
pub fn find_template_by_name(templates: &Vec<Template>, name: &str) -> (r: Option<usize>)
    ensures
        match r {
            Some(i) => i < templates@.len() && spec_eq_ignore_ascii_case(
                templates@[i as int]@.name,
                name@,
            ) && (forall|j: int|
                i < j < templates@.len() ==> !spec_eq_ignore_ascii_case(
                    #[trigger] templates@[j]@.name,
                    name@,
                )),
            None => forall|j: int|
                0 <= j < templates@.len() ==> !spec_eq_ignore_ascii_case(
                    #[trigger] templates@[j]@.name,
                    name@,
                ),
        },
{
    let mut i: usize = templates.len();
    while i > 0
        invariant
            i <= templates@.len(),
            forall|j: int|
                i <= j < templates@.len() ==> !spec_eq_ignore_ascii_case(
                    #[trigger] templates@[j]@.name,
                    name@,
                ),
        decreases i,
    {
        i = i - 1;
        if chars_eq_ignore_ascii_case(templates[i].name.as_str(), name) {
            return Some(i);
        }
    }
    None
}

/// What the Unicode lower-casing of a text is. Decided by the standard
/// library; a function of the characters alone.
pub uninterp spec fn lower_of(s: Seq<char>) -> Seq<char>;

/// Relies on str::to_lowercase: the rendering depends on the characters
/// alone.
#[verifier::external_body]
pub fn to_lowercase(s: &str) -> (r: String)
    ensures
        r@ == lower_of(s@),
{
    s.to_lowercase()
}

/// The index of the last template whose identifier matches `template_id`
/// after both are lower-cased; nothing when none matches.
pub fn find_template_by_id(templates: &Vec<Template>, template_id: &str) -> (r: Option<usize>)
    ensures
        match r {
            Some(i) => i < templates@.len() && lower_of(templates@[i as int]@.id) == lower_of(
                template_id@,
            ) && (forall|j: int|
                i < j < templates@.len() ==> lower_of(#[trigger] templates@[j]@.id) != lower_of(
                    template_id@,
                )),
            None => forall|j: int|
                0 <= j < templates@.len() ==> lower_of(#[trigger] templates@[j]@.id) != lower_of(
                    template_id@,
                ),
        },
{
    let wanted = to_lowercase(template_id);
    let mut i: usize = templates.len();
    while i > 0
        invariant
            i <= templates@.len(),
            wanted@ == lower_of(template_id@),
            forall|j: int|
                i <= j < templates@.len() ==> lower_of(#[trigger] templates@[j]@.id) != lower_of(
                    template_id@,
                ),
        decreases i,
    {
        i = i - 1;
        let candidate = to_lowercase(templates[i].id.as_str());
        if candidate == wanted {
            return Some(i);
        }
    }
    None
}

/// The identifiers of all the templates, in order.
pub fn template_ids(templates: &Vec<Template>) -> (r: Vec<String>)
    ensures
        r@.len() == templates@.len(),
        forall|i: int| 0 <= i < r@.len() ==> #[trigger] r@[i]@ == templates@[i]@.id,
{
    let mut ids: Vec<String> = Vec::new();
    let mut i: usize = 0;
    while i < templates.len()
        invariant
            i <= templates@.len(),
            ids@.len() == i,
            forall|j: int| 0 <= j < i ==> #[trigger] ids@[j]@ == templates@[j]@.id,
        decreases templates@.len() - i,
    {
        ids.push(templates[i].id.clone());
        i = i + 1;
    }
    ids
}

/// How a `create`, `add` or `generate` invocation can fail before any
/// generation runs: the requested template is not in the repository. The
/// error carries the requested identifier and every identifier on offer.
#[derive(Debug)]
pub enum CreateHandlerError {
    TemplateNotFound(String, Vec<String>),
}

} // verus!
