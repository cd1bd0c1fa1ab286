//! The template collaborator, seen from the core as data: which template
//! files parse, and whether each needs named variables.
//!
//! Parsing a template and analysing its variable usage is the templating
//! engine's work; neither happens inside this crate.  A `TemplateSource`
//! carries what the engine reported for each resolved path, and initializing
//! the registry consults it instead of the filesystem.  A path the source
//! does not know is a file that is not there.

use vstd::prelude::*;
use vstd::string::StringExecFns;

use crate::de::{assoc_find, find, res_dv};
use crate::error::{Error, ErrorV};

verus! {

/// Ghost mirror of `TemplateOutcome`.
#[verifier::ext_equal]
pub enum TemplateOutcomeV {
    Parsed { needs_variables: bool },
    Failed(Seq<char>),
}

/// What the template engine reported for one file: it parsed, and whether
/// it requires named variables; or it failed with a cause.
#[derive(Debug)]
pub enum TemplateOutcome {
    Parsed { needs_variables: bool },
    Failed(String),
}

impl DeepView for TemplateOutcome {
    type V = TemplateOutcomeV;

    open spec fn deep_view(&self) -> TemplateOutcomeV {
        match self {
            TemplateOutcome::Parsed { needs_variables } => TemplateOutcomeV::Parsed {
                needs_variables: *needs_variables,
            },
            TemplateOutcome::Failed(cause) => TemplateOutcomeV::Failed(cause@),
        }
    }
}

/// The collaborator's report: for each resolved path, whether the template
/// file there parsed and whether it needs variables.
#[derive(Debug)]
pub struct TemplateSource {
    pub entries: Vec<(String, TemplateOutcome)>,
}

impl DeepView for TemplateSource {
    type V = Seq<(Seq<char>, TemplateOutcomeV)>;

    open spec fn deep_view(&self) -> Seq<(Seq<char>, TemplateOutcomeV)> {
        self.entries.deep_view()
    }
}

impl TemplateSource {
    /// A report that knows no file.
    pub fn new() -> (r: TemplateSource)
        ensures
            r.deep_view() == Seq::<(Seq<char>, TemplateOutcomeV)>::empty(),
    {
        let entries: Vec<(String, TemplateOutcome)> = Vec::new();
        proof {
            assert(TemplateSource { entries }.deep_view() =~= Seq::<(
                Seq<char>,
                TemplateOutcomeV,
            )>::empty());
        }
        TemplateSource { entries }
    }

    /// Record that the template at `path` parsed, and whether it needs
    /// named variables.
    pub fn add_parsed(&mut self, path: String, needs_variables: bool)
        ensures
            final(self).deep_view() == old(self).deep_view().push(
                (path@, TemplateOutcomeV::Parsed { needs_variables }),
            ),
    {
        let ghost before = self.deep_view();
        let ghost pv = path@;
        self.entries.push((path, TemplateOutcome::Parsed { needs_variables }));
        proof {
            assert(self.deep_view() =~= before.push(
                (pv, TemplateOutcomeV::Parsed { needs_variables }),
            ));
        }
    }

    /// Record that the template at `path` failed with `cause`.
    pub fn add_failed(&mut self, path: String, cause: String)
        ensures
            final(self).deep_view() == old(self).deep_view().push(
                (path@, TemplateOutcomeV::Failed(cause@)),
            ),
    {
        let ghost before = self.deep_view();
        let ghost pv = path@;
        let ghost cv = cause@;
        self.entries.push((path, TemplateOutcome::Failed(cause)));
        proof {
            assert(self.deep_view() =~= before.push((pv, TemplateOutcomeV::Failed(cv))));
        }
    }
}

/// Ghost mirror of `TemplateEntry`.
#[verifier::ext_equal]
pub struct TemplateEntryV {
    pub path: Seq<char>,
    pub needs_variables: bool,
}

/// One registered template: the resolved path it was read from and whether
/// it requires named variables.
#[derive(Debug)]
pub struct TemplateEntry {
    pub path: String,
    pub needs_variables: bool,
}

impl DeepView for TemplateEntry {
    type V = TemplateEntryV;

    open spec fn deep_view(&self) -> TemplateEntryV {
        TemplateEntryV { path: self.path@, needs_variables: self.needs_variables }
    }
}

/// The initialized template registry, keyed by the path exactly as written
/// in the document (the template's lookup name).
#[derive(Debug)]
pub struct TemplateConfig {
    pub templates: Vec<(String, TemplateEntry)>,
}

impl DeepView for TemplateConfig {
    type V = Seq<(Seq<char>, TemplateEntryV)>;

    open spec fn deep_view(&self) -> Seq<(Seq<char>, TemplateEntryV)> {
        self.templates.deep_view()
    }
}

/// The message reported when the template named `name` cannot be
/// initialized.
pub open spec fn template_fail_msg(name: Seq<char>, cause: Seq<char>) -> Seq<char> {
    "Failed to initialize template `"@ + name + "`: "@ + cause
}

/// Initializing the registry from a name-to-path mapping: each named file
/// must have parsed; the first one that did not aborts the load.
pub open spec fn spec_initialize_templates_from(
    mapping: Seq<(Seq<char>, Seq<char>)>,
    src: Seq<(Seq<char>, TemplateOutcomeV)>,
    i: int,
) -> Result<Seq<(Seq<char>, TemplateEntryV)>, ErrorV>
    decreases mapping.len() - i,
{
    if i < 0 || i >= mapping.len() {
        Ok(Seq::empty())
    } else {
        let name = mapping[i].0;
        let path = mapping[i].1;
        let outcome = match find(src, path) {
            Some(o) => o,
            None => TemplateOutcomeV::Failed("No such file or directory (os error 2)"@),
        };
        match outcome {
            TemplateOutcomeV::Failed(cause) => Err(ErrorV::Config {
                message: template_fail_msg(name, cause),
            }),
            TemplateOutcomeV::Parsed { needs_variables } => {
                match spec_initialize_templates_from(mapping, src, i + 1) {
                    Err(e) => Err(e),
                    Ok(rest) => Ok(
                        seq![(name, TemplateEntryV { path, needs_variables })] + rest,
                    ),
                }
            },
        }
    }
}

/// Whether a registry says the named template needs variables; a name that
/// was never registered is an error carrying it.
pub open spec fn spec_template_needs_variables(
    reg: Seq<(Seq<char>, TemplateEntryV)>,
    name: Seq<char>,
) -> Result<bool, ErrorV> {
    match find(reg, name) {
        Some(entry) => Ok(entry.needs_variables),
        None => Err(ErrorV::Config { message: "Template not found: "@ + name }),
    }
}

impl TemplateConfig {
    /// A registry with no templates.
    pub fn new() -> (r: TemplateConfig)
        ensures
            r.deep_view() == Seq::<(Seq<char>, TemplateEntryV)>::empty(),
    {
        let templates: Vec<(String, TemplateEntry)> = Vec::new();
        proof {
            assert(TemplateConfig { templates }.deep_view() =~= Seq::<(
                Seq<char>,
                TemplateEntryV,
            )>::empty());
        }
        TemplateConfig { templates }
    }

    /// Initialize a registry from the name-to-path mapping the resolver
    /// gathered, using what the template engine reported for each path.
    pub fn initialize(mapping: &Vec<(String, String)>, source: &TemplateSource) -> (r: Result<
        TemplateConfig,
        Error,
    >)
        ensures
            match r {
                Ok(reg) => spec_initialize_templates_from(mapping.deep_view(), source.deep_view(), 0)
                    == Ok::<_, ErrorV>(reg.deep_view()),
                Err(e) => spec_initialize_templates_from(mapping.deep_view(), source.deep_view(), 0)
                    == Err::<Seq<(Seq<char>, TemplateEntryV)>, _>(e.deep_view()),
            },
    {
        let ghost mv = mapping.deep_view();
        let ghost sv = source.deep_view();
        let ghost full = spec_initialize_templates_from(mv, sv, 0);
        let mut templates: Vec<(String, TemplateEntry)> = Vec::new();
        let mut i: usize = 0;
        while i < mapping.len()
            invariant
                0 <= i <= mapping.len(),
                mv == mapping.deep_view(),
                sv == source.deep_view(),
                mv.len() == mapping.len(),
                forall|j: int| 0 <= j < mapping.len() ==> mv[j] == (
                    mapping@[j].0@,
                    mapping@[j].1@,
                ),
                full == spec_initialize_templates_from(mv, sv, 0),
                templates.len() == i,
                match spec_initialize_templates_from(mv, sv, i as int) {
                    Err(e) => full == Err::<Seq<(Seq<char>, TemplateEntryV)>, ErrorV>(e),
                    Ok(rest) => full == Ok::<Seq<(Seq<char>, TemplateEntryV)>, ErrorV>(
                        templates.deep_view() + rest,
                    ),
                },
            decreases mapping.len() - i,
        {
            let name = &mapping[i].0;
            let path = &mapping[i].1;
            let needs_variables: bool = match assoc_find(&source.entries, path.as_str()) {
                Some(TemplateOutcome::Parsed { needs_variables }) => *needs_variables,
                Some(TemplateOutcome::Failed(cause)) => {
                    let mut message = "Failed to initialize template `".to_owned();
                    message.append(name.as_str());
                    message.append("`: ");
                    message.append(cause.as_str());
                    return Err(Error::Config { message });
                },
                None => {
                    let mut message = "Failed to initialize template `".to_owned();
                    message.append(name.as_str());
                    message.append("`: ");
                    message.append("No such file or directory (os error 2)");
                    return Err(Error::Config { message });
                },
            };
            let ghost before = templates.deep_view();
            let entry = TemplateEntry { path: path.clone(), needs_variables };
            templates.push((name.clone(), entry));
            proof {
                let ghost item = (mv[i as int].0, TemplateEntryV {
                    path: mv[i as int].1,
                    needs_variables,
                });
                assert(templates.deep_view() =~= before.push(item));
                match spec_initialize_templates_from(mv, sv, i + 1 as int) {
                    Err(e) => {},
                    Ok(rest) => {
                        assert(before + (seq![item] + rest) =~= templates.deep_view() + rest);
                    },
                }
            }
            i += 1;
        }
        proof {
            assert(templates.deep_view() + Seq::<(Seq<char>, TemplateEntryV)>::empty()
                =~= templates.deep_view());
        }
        Ok(TemplateConfig { templates })
    }

    /// Whether the named template requires named variables; asking for a
    /// name that was never registered is an error.
    pub fn template_needs_variables(&self, name: &str) -> (r: Result<bool, Error>)
        ensures
            res_dv(r) == spec_template_needs_variables(self.deep_view(), name@),
    {
        match assoc_find(&self.templates, name) {
            Some(entry) => Ok(entry.needs_variables),
            None => {
                let mut message = "Template not found: ".to_owned();
                message.append(name);
                Err(Error::Config { message })
            },
        }
    }
}

} // verus!
