//! Planning a new contract project: which template to clone, and whether
//! the contract's name will do. Cloning and the file system are the caller's.

use crate::strmap::StringMap;
use vstd::prelude::*;

verus! {

/// Whether a character is alphabetic in Unicode's sense, as `char::is_alphabetic`
/// decides it.
pub uninterp spec fn unicode_alphabetic(c: char) -> bool;

/// Whether a character is numeric in Unicode's sense, as `char::is_numeric`
/// decides it.
pub uninterp spec fn unicode_numeric(c: char) -> bool;

/// `char::is_alphabetic`. Trusted.
#[verifier::external_body]
fn is_alphabetic(c: char) -> (yes: bool)
    ensures
        yes == unicode_alphabetic(c),
{
    c.is_alphabetic()
}

/// `char::is_alphanumeric`: alphabetic or numeric. Trusted.
#[verifier::external_body]
fn is_alphanumeric(c: char) -> (yes: bool)
    ensures
        yes == (unicode_alphabetic(c) || unicode_numeric(c)),
{
    c.is_alphanumeric()
}

/// Why a project could not be set up, in words.
#[derive(Debug, PartialEq)]
pub struct CloneError(pub String);

impl CloneError {
    pub fn new(message: String) -> (error: Self)
        ensures
            error.0 == message,
    {
        CloneError(message)
    }

    /// The message.
    pub fn message(&self) -> (message: &String)
        ensures
            message == self.0,
    {
        &self.0
    }
}

/// A project template: the repository to clone.
#[derive(Clone, Debug, PartialEq)]
pub struct Template {
    pub url: String,
}

/// The templates that are on offer, by name.
pub struct L1XContractTemplateHub {
    pub repo: StringMap<String>,
}

/// The templates of the default hub.
pub open spec fn default_templates() -> Map<Seq<char>, Seq<char>> {
    Map::empty().insert(
        "l1x-cross-chain-swap"@,
        "https://github.com/L1X-Foundation-VM/l1x-templ-cross-chain-swap.git"@,
    ).insert("l1x-ft"@, "https://github.com/L1X-Foundation-VM/l1x-templ-ft.git"@).insert(
        "l1x-nft"@,
        "https://github.com/L1X-Foundation-VM/l1x-templ-nft.git"@,
    )
}

/// The template that is taken where none is named.
pub open spec fn default_template_name() -> Seq<char> {
    "l1x-ft"@
}

impl Default for L1XContractTemplateHub {
    fn default() -> (hub: Self)
        ensures
            hub.repo@ == default_templates(),
    {
        let mut repo: StringMap<String> = StringMap::new();
        repo.insert(
            "l1x-cross-chain-swap".to_owned(),
            "https://github.com/L1X-Foundation-VM/l1x-templ-cross-chain-swap.git".to_owned(),
        );
        repo.insert(
            "l1x-ft".to_owned(),
            "https://github.com/L1X-Foundation-VM/l1x-templ-ft.git".to_owned(),
        );
        repo.insert(
            "l1x-nft".to_owned(),
            "https://github.com/L1X-Foundation-VM/l1x-templ-nft.git".to_owned(),
        );
        L1XContractTemplateHub { repo }
    }
}

pub open spec fn template_view(outcome: Result<Template, CloneError>) -> Result<
    Seq<char>,
    Seq<char>,
> {
    match outcome {
        Ok(template) => Ok(template.url@),
        Err(error) => Err(error.0@),
    }
}

impl L1XContractTemplateHub {
    /// The template of that name, if the hub has it.
    pub fn get_template(&self, template_name: &str) -> (template: Result<Template, CloneError>)
        ensures
            template_view(template) == if self.repo@.contains_key(template_name@) {
                Ok::<Seq<char>, Seq<char>>(self.repo@[template_name@])
            } else {
                Err::<Seq<char>, Seq<char>>("Template not found: "@ + template_name@)
            },
    {
        let key = template_name.to_owned();
        match self.repo.get(&key) {
            Some(url) => Ok(Template { url: url.clone() }),
            None => Err(CloneError::new("Template not found: ".to_owned().concat(template_name))),
        }
    }
}

impl Template {
    /// The template of that name in the default hub.
    pub fn from_str(s: &str) -> (template: Result<Template, CloneError>)
        ensures
            template_view(template) == if default_templates().contains_key(s@) {
                Ok::<Seq<char>, Seq<char>>(default_templates()[s@])
            } else {
                Err::<Seq<char>, Seq<char>>("Invalid project template: "@ + s@)
            },
    {
        let hub = L1XContractTemplateHub::default();
        let key = s.to_owned();
        match hub.repo.get(&key) {
            Some(url) => Ok(Template { url: url.clone() }),
            None => Err(CloneError::new("Invalid project template: ".to_owned().concat(s))),
        }
    }
}

/// What is wrong with a contract's name.
#[derive(Clone, Copy, Debug, PartialEq, Eq, Structural)]
pub enum NameError {
    /// A character is neither alphanumeric nor an underscore.
    InvalidCharacter,
    /// The first character is not alphabetic, or there is none.
    InvalidStart,
}

impl NameError {
    /// The error in words.
    pub fn message(&self) -> (text: &'static str)
        ensures
            text@ == match *self {
                NameError::InvalidCharacter => "Contract names can only contain alphanumeric characters and underscores"@,
                NameError::InvalidStart => "Contract names must begin with an alphabetic character"@,
            },
    {
        match self {
            NameError::InvalidCharacter => "Contract names can only contain alphanumeric characters and underscores",
            NameError::InvalidStart => "Contract names must begin with an alphabetic character",
        }
    }
}

/// A character that a contract's name may hold.
pub open spec fn name_char(c: char) -> bool {
    unicode_alphabetic(c) || unicode_numeric(c) || c == '_'
}

/// A contract's name holds alphanumeric characters and underscores only and
/// begins with an alphabetic character. The characters are looked at first.
pub open spec fn check_name(name: Seq<char>) -> Result<(), NameError> {
    if !(forall|i: int| 0 <= i < name.len() ==> name_char(#[trigger] name[i])) {
        Err(NameError::InvalidCharacter)
    } else if name.len() == 0 || !unicode_alphabetic(name[0]) {
        Err(NameError::InvalidStart)
    } else {
        Ok(())
    }
}

/// Checks a contract's name.
pub fn validate_contract_name(name: &str) -> (outcome: Result<(), NameError>)
    ensures
        outcome == check_name(name@),
{
    let length = name.unicode_len();
    let mut i: usize = 0;
    while i < length
        invariant
            i <= length,
            length == name@.len(),
            forall|j: int| 0 <= j < i ==> name_char(#[trigger] name@[j]),
        decreases length - i,
    {
        let c = name.get_char(i);
        if !(is_alphanumeric(c) || c == '_') {
            return Err(NameError::InvalidCharacter);
        }
        i += 1;
    }
    if length == 0 || !is_alphabetic(name.get_char(0)) {
        return Err(NameError::InvalidStart);
    }
    Ok(())
}

/// Why no project can be planned.
#[derive(Debug, PartialEq)]
pub enum NewProjectError {
    Template(CloneError),
    Name(NameError),
}

/// What a new project is made from.
#[derive(Debug, PartialEq)]
pub struct ProjectPlan {
    /// The template to clone.
    pub template: Template,
    /// The directory to clone into, below the base path.
    pub directory: String,
}

pub enum PlanFailure {
    TemplateNotFound(Seq<char>),
    Name(NameError),
}

pub open spec fn plan_view(outcome: Result<ProjectPlan, NewProjectError>) -> Result<
    (Seq<char>, Seq<char>),
    PlanFailure,
> {
    match outcome {
        Ok(plan) => Ok((plan.template.url@, plan.directory@)),
        Err(NewProjectError::Template(error)) => Err(PlanFailure::TemplateNotFound(error.0@)),
        Err(NewProjectError::Name(error)) => Err(PlanFailure::Name(error)),
    }
}

/// The plan for a project: the template is looked up first, under the
/// default name where none is given; then the name is checked.
pub open spec fn plan_project(name: Seq<char>, template_name: Option<Seq<char>>) -> Result<
    (Seq<char>, Seq<char>),
    PlanFailure,
> {
    let template = match template_name {
        Some(given) => given,
        None => default_template_name(),
    };
    if !default_templates().contains_key(template) {
        Err(PlanFailure::TemplateNotFound("Template not found: "@ + template))
    } else {
        match check_name(name) {
            Err(error) => Err(PlanFailure::Name(error)),
            Ok(()) => Ok((default_templates()[template], name)),
        }
    }
}

/// Plans a new contract project from a template.
pub fn new_contract_project(name: &str, template_name: Option<String>) -> (plan: Result<
    ProjectPlan,
    NewProjectError,
>)
    ensures
        plan_view(plan) == plan_project(name@, template_name.deep_view()),
{
    let l1x_template_hub = L1XContractTemplateHub::default();
    let project_template_name = match template_name {
        Some(given) => given,
        None => "l1x-ft".to_owned(),
    };
    let project_template = match l1x_template_hub.get_template(project_template_name.as_str()) {
        Ok(template) => template,
        Err(error) => {
            return Err(NewProjectError::Template(error));
        },
    };
    match validate_contract_name(name) {
        Err(error) => Err(NewProjectError::Name(error)),
        Ok(()) => Ok(ProjectPlan { template: project_template, directory: name.to_owned() }),
    }
}

/// The request for a new contract project.
#[derive(Debug)]
pub struct NewCommand {
    /// The name of the new contract.
    pub name: String,
    /// The template's name, if one is chosen.
    pub template_name: Option<String>,
    /// The directory in which the project is to be made, if not the current
    /// one.
    pub target_dir: Option<String>,
}

impl NewCommand {
    /// Plans the project that the command asks for.
    pub fn exec(self) -> (plan: Result<ProjectPlan, NewProjectError>)
        ensures
            plan_view(plan) == plan_project(self.name@, self.template_name.deep_view()),
    {
        new_contract_project(self.name.as_str(), self.template_name)
    }
}

} // verus!
