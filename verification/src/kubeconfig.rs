//! Reading a kubeconfig: its contexts, its current context, whether it is
//! valid, and how it looks after a switch of the current context.
//!
//! The shell reads and writes the file; the functions here work on its text.

use vstd::prelude::*;
use vstd::string::*;
use crate::commands::{
    kubeconfig_parse_error, KubeconfigContext, KubeconfigInfo,
};
use crate::json::{
    json_as_array, json_as_str, json_elements, json_get, json_insert_text, json_is_object,
    json_member, json_object, json_text, json_with_text,
};
use crate::text::{opt, opt_view, str_eq};
use crate::yaml::{parse_yaml, write_yaml, yaml_document, yaml_text};

verus! {

/// What a context of a kubeconfig says, as characters.
pub struct ContextView {
    pub name: Seq<char>,
    pub cluster: Seq<char>,
    pub user: Seq<char>,
    pub namespace: Option<Seq<char>>,
}

impl View for KubeconfigContext {
    type V = ContextView;

    open spec fn view(&self) -> ContextView {
        ContextView {
            name: self.name@,
            cluster: self.cluster@,
            user: self.user@,
            namespace: opt_view(self.namespace),
        }
    }
}

/// What each context of a list says.
pub open spec fn contexts_view(contexts: Seq<KubeconfigContext>) -> Seq<ContextView> {
    Seq::new(contexts.len(), |i: int| contexts[i]@)
}

/// The text under `key` in a document, if the document is a mapping that
/// holds a text there.
pub open spec fn text_member(value: serde_json::Value, key: Seq<char>) -> Option<Seq<char>> {
    match json_member(value, key) {
        Some(member) => json_text(member),
        None => None,
    }
}

fn get_text(value: &serde_json::Value, key: &str) -> (res: Option<String>)
    ensures
        opt_view(res) == text_member(*value, key@),
{
    match json_get(value, key) {
        Some(member) => match json_as_str(member) {
            Some(text) => Some(text.to_owned()),
            None => None,
        },
        None => None,
    }
}

/// What one entry of the list of contexts says, or what it lacks: its name,
/// its `context` mapping, and in there the cluster and the user; the
/// namespace may be missing.
pub open spec fn spec_parse_context(entry: serde_json::Value) -> Result<ContextView, Seq<char>> {
    match text_member(entry, "name"@) {
        None => Err("Context missing name"@),
        Some(name) => match json_member(entry, "context"@) {
            None => Err("Context missing context field"@),
            Some(context) => match text_member(context, "cluster"@) {
                None => Err("Context missing cluster"@),
                Some(cluster) => match text_member(context, "user"@) {
                    None => Err("Context missing user"@),
                    Some(user) => Ok(
                        ContextView {
                            name,
                            cluster,
                            user,
                            namespace: text_member(context, "namespace"@),
                        },
                    ),
                },
            },
        },
    }
}

fn parse_context(entry: &serde_json::Value) -> (res: Result<KubeconfigContext, String>)
    ensures
        match res {
            Ok(context) => spec_parse_context(*entry) == Ok::<ContextView, Seq<char>>(context@),
            Err(message) => spec_parse_context(*entry) == Err::<ContextView, Seq<char>>(message@),
        },
{
    let name = match get_text(entry, "name") {
        Some(name) => name,
        None => {
            return Err(String::from_str("Context missing name"));
        },
    };
    let context = match json_get(entry, "context") {
        Some(context) => context,
        None => {
            return Err(String::from_str("Context missing context field"));
        },
    };
    let cluster = match get_text(context, "cluster") {
        Some(cluster) => cluster,
        None => {
            return Err(String::from_str("Context missing cluster"));
        },
    };
    let user = match get_text(context, "user") {
        Some(user) => user,
        None => {
            return Err(String::from_str("Context missing user"));
        },
    };
    let namespace = get_text(context, "namespace");
    Ok(KubeconfigContext { name, cluster, user, namespace })
}

/// What the entries from `from` on say, in order, or what the first faulty
/// one among them lacks.
pub open spec fn spec_parse_entries(entries: Seq<serde_json::Value>, from: int) -> Result<
    Seq<ContextView>,
    Seq<char>,
>
    decreases entries.len() - from,
{
    if from < 0 || from >= entries.len() {
        Ok(Seq::empty())
    } else {
        match spec_parse_context(entries[from]) {
            Err(message) => Err(message),
            Ok(context) => match spec_parse_entries(entries, from + 1) {
                Err(message) => Err(message),
                Ok(rest) => Ok(seq![context] + rest),
            },
        }
    }
}

/// The contexts of a kubeconfig document: what the entries of its list
/// `contexts` say, or the first fault.
pub open spec fn spec_parse_contexts(config: serde_json::Value) -> Result<
    Seq<ContextView>,
    Seq<char>,
> {
    match json_member(config, "contexts"@) {
        None => Err("No contexts found in kubeconfig"@),
        Some(list) => match json_elements(list) {
            None => Err("No contexts found in kubeconfig"@),
            Some(entries) => spec_parse_entries(entries, 0),
        },
    }
}

/// Reads the contexts of a kubeconfig document. The document must hold a
/// list `contexts`; each entry must have a name and, under `context`, a
/// cluster and a user. The first entry that lacks one of them ends the
/// reading with a message that says what is missing.
#[verifier::loop_isolation(false)]
pub fn parse_contexts(config: &serde_json::Value) -> (res: Result<Vec<KubeconfigContext>, String>)
    ensures
        match res {
            Ok(contexts) => spec_parse_contexts(*config) == Ok::<Seq<ContextView>, Seq<char>>(
                contexts_view(contexts@),
            ),
            Err(message) => spec_parse_contexts(*config) == Err::<Seq<ContextView>, Seq<char>>(
                message@,
            ),
        },
{
    let entries = match json_get(config, "contexts") {
        Some(list) => match json_as_array(list) {
            Some(entries) => entries,
            None => {
                return Err(String::from_str("No contexts found in kubeconfig"));
            },
        },
        None => {
            return Err(String::from_str("No contexts found in kubeconfig"));
        },
    };
    let mut result: Vec<KubeconfigContext> = Vec::new();
    let mut i: usize = 0;
    while i < entries.len()
        invariant
            i <= entries.len(),
            spec_parse_entries(entries@, 0) == match spec_parse_entries(entries@, i as int) {
                Ok(rest) => Ok::<Seq<ContextView>, Seq<char>>(contexts_view(result@) + rest),
                Err(message) => Err(message),
            },
        decreases entries.len() - i,
    {
        match parse_context(&entries[i]) {
            Ok(context) => {
                proof {
                    let done = contexts_view(result@);
                    let grown = contexts_view(result@.push(context));
                    assert(grown =~= done + seq![context@]);
                    match spec_parse_entries(entries@, i + 1) {
                        Ok(rest) => {
                            assert(done + (seq![context@] + rest) =~= grown + rest);
                        },
                        Err(_) => {},
                    }
                }
                result.push(context);
            },
            Err(message) => {
                return Err(message);
            },
        }
        i = i + 1;
    }
    proof {
        assert(contexts_view(result@) + Seq::<ContextView>::empty() =~= contexts_view(result@));
    }
    Ok(result)
}

/// What a kubeconfig holds, as characters.
pub struct InfoView {
    pub path: Seq<char>,
    pub current_context: Option<Seq<char>>,
    pub contexts: Seq<ContextView>,
}

impl View for KubeconfigInfo {
    type V = InfoView;

    open spec fn view(&self) -> InfoView {
        InfoView {
            path: self.path@,
            current_context: opt_view(self.current_context),
            contexts: contexts_view(self.contexts@),
        }
    }
}

/// What the kubeconfig with the text `content` holds.
pub open spec fn spec_kubeconfig_info(path: Seq<char>, content: Seq<char>) -> Result<
    InfoView,
    Seq<char>,
> {
    match yaml_document(content) {
        None => Err("Failed to parse kubeconfig"@),
        Some(config) => match spec_parse_contexts(config) {
            Err(message) => Err(message),
            Ok(contexts) => Ok(
                InfoView {
                    path,
                    current_context: text_member(config, "current-context"@),
                    contexts,
                },
            ),
        },
    }
}

/// Describes the kubeconfig that was read from `path` with the text
/// `content`: its current context, if it names one, and its contexts. A text
/// that is no YAML gives the parse error, which names neither path nor content.
pub fn get_kubeconfig_info(path: String, content: &str) -> (res: Result<KubeconfigInfo, String>)
    ensures
        match res {
            Ok(info) => spec_kubeconfig_info(path@, content@) == Ok::<InfoView, Seq<char>>(info@),
            Err(message) => spec_kubeconfig_info(path@, content@) == Err::<InfoView, Seq<char>>(
                message@,
            ),
        },
{
    let config = match parse_yaml(content) {
        Ok(config) => config,
        Err(_) => {
            return Err(kubeconfig_parse_error());
        },
    };
    let current_context = get_text(&config, "current-context");
    match parse_contexts(&config) {
        Ok(contexts) => Ok(KubeconfigInfo { path, current_context, contexts }),
        Err(message) => Err(message),
    }
}

/// Whether a kubeconfig is valid: there is a text, it is YAML, and the
/// document has clusters, contexts and users.
pub open spec fn spec_validate_kubeconfig(content: Option<Seq<char>>) -> bool {
    match content {
        None => false,
        Some(text) => match yaml_document(text) {
            None => false,
            Some(config) => json_member(config, "clusters"@) is Some && json_member(
                config,
                "contexts"@,
            ) is Some && json_member(config, "users"@) is Some,
        },
    }
}

/// Tells whether a kubeconfig is valid. `content` is the text of the file,
/// or `None` where the file is missing or could not be read.
pub fn validate_kubeconfig(content: Option<&str>) -> (res: bool)
    ensures
        res == spec_validate_kubeconfig(opt(content)),
{
    match content {
        None => false,
        Some(text) => match parse_yaml(text) {
            Err(_) => false,
            Ok(config) => {
                let has_clusters = json_get(&config, "clusters").is_some();
                let has_contexts = json_get(&config, "contexts").is_some();
                let has_users = json_get(&config, "users").is_some();
                has_clusters && has_contexts && has_users
            },
        },
    }
}

/// Whether one of the contexts has the name `name`.
pub open spec fn has_context(contexts: Seq<ContextView>, name: Seq<char>) -> bool {
    exists|i: int| 0 <= i < contexts.len() && (#[trigger] contexts[i]).name == name
}

fn contains_context(contexts: &Vec<KubeconfigContext>, name: &str) -> (res: bool)
    ensures
        res == has_context(contexts_view(contexts@), name@),
{
    let mut i: usize = 0;
    while i < contexts.len()
        invariant
            i <= contexts.len(),
            forall|k: int| 0 <= k < i ==> (#[trigger] contexts_view(contexts@)[k]).name != name@,
        decreases contexts.len() - i,
    {
        if str_eq(contexts[i].name.as_str(), name) {
            assert(contexts_view(contexts@)[i as int].name == name@);
            return true;
        }
        i = i + 1;
    }
    false
}

/// The message for a context that the kubeconfig does not have.
pub open spec fn context_not_found(name: Seq<char>) -> Seq<char> {
    "Context '"@ + name + "' not found"@
}

/// The document after a switch to the context `name`: a mapping gets `name`
/// as its current context, and a document that is no mapping, which has no
/// place for one, stays as it is.
pub open spec fn spec_with_current_context(config: serde_json::Value, name: Seq<char>) -> serde_json::Value {
    if json_object(config) {
        json_with_text(config, "current-context"@, name)
    } else {
        config
    }
}

/// The text of the kubeconfig after a switch to the context `name`, or why
/// the switch cannot be made.
pub open spec fn spec_switch_context(content: Seq<char>, name: Seq<char>) -> Result<
    Seq<char>,
    Seq<char>,
> {
    match yaml_document(content) {
        None => Err("Failed to parse kubeconfig"@),
        Some(config) => match spec_parse_contexts(config) {
            Err(message) => Err(message),
            Ok(contexts) => if !has_context(contexts, name) {
                Err(context_not_found(name))
            } else {
                match yaml_text(spec_with_current_context(config, name)) {
                    Some(text) => Ok(text),
                    None => Err("Failed to parse kubeconfig"@),
                }
            },
        },
    }
}

/// Switches the current context of the kubeconfig with the text `content`
/// to `context_name` and returns the text to write back. The context must be
/// one of the kubeconfig's own. The name is put into the document where the
/// document is a mapping; a document that is none is written back as it is.
pub fn switch_context(content: &str, context_name: String) -> (res: Result<String, String>)
    ensures
        match res {
            Ok(text) => spec_switch_context(content@, context_name@) == Ok::<Seq<char>, Seq<char>>(
                text@,
            ),
            Err(message) => spec_switch_context(content@, context_name@) == Err::<
                Seq<char>,
                Seq<char>,
            >(message@),
        },
{
    let mut config = match parse_yaml(content) {
        Ok(config) => config,
        Err(_) => {
            return Err(kubeconfig_parse_error());
        },
    };
    let contexts = match parse_contexts(&config) {
        Ok(contexts) => contexts,
        Err(message) => {
            return Err(message);
        },
    };
    if !contains_context(&contexts, context_name.as_str()) {
        let mut message = String::from_str("Context '");
        message.append(context_name.as_str());
        message.append("' not found");
        return Err(message);
    }
    if json_is_object(&config) {
        json_insert_text(&mut config, "current-context", context_name);
    }
    match write_yaml(&config) {
        Ok(text) => Ok(text),
        Err(_) => Err(kubeconfig_parse_error()),
    }
}

} // verus!
