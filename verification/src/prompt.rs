//! YAML prompt documents and their conversion into conversations.
//!
//! A prompt document holds an ordered sequence of messages, each a free-form
//! role string and raw content, and an optional advisory model identifier.
//! Conversion substitutes template variables into every message, validates
//! each role against the closed set system / user / assistant (failing fast
//! on the first role outside it), promotes the first system message's
//! substituted content into a separate base-instructions slot, and removes
//! every system message from the ordered conversation body.

use crate::substitution::str_eq;
use crate::substitution::subst_vars;
use crate::substitution::substitute_template_vars;
use crate::substitution::vars_view;
use vstd::prelude::*;
use vstd::string::StringExecFns;

verus! {

/// One message of a prompt document: a free-form role and raw content.
/// The role is validated only when the document is converted.
#[derive(Debug, Clone, PartialEq, Eq)]
pub struct YamlMessage {
    pub role: String,
    pub content: String,
}

/// A parsed prompt document: an ordered message sequence and an optional
/// advisory model identifier.
#[derive(Debug, Clone, PartialEq, Eq)]
pub struct YamlPrompt {
    pub messages: Vec<YamlMessage>,
    pub model: Option<String>,
}

/// Errors of the prompt pipeline.
#[derive(Debug, Clone, PartialEq, Eq)]
pub enum CodexErr {
    /// A file could not be read; carries a description of path and cause.
    Io(String),
    /// The document text does not have the expected shape; carries the
    /// parser diagnostic.
    Parse(String),
    /// A message role outside the closed set; carries the offending role.
    UnsupportedRole(String),
}

/// A conversation item with resolved text content.
#[derive(Debug, Clone, PartialEq, Eq)]
pub enum ResponseItem {
    SystemMessage { content: String },
    UserMessage { content: String },
    AssistantMessage { content: String },
}

/// A conversation item at specification level: the variant together with the
/// view of its text content.
pub enum ItemView {
    System { content: Seq<char> },
    User { content: Seq<char> },
    Assistant { content: Seq<char> },
}

impl View for ResponseItem {
    type V = ItemView;

    open spec fn view(&self) -> ItemView {
        match self {
            ResponseItem::SystemMessage { content } => ItemView::System { content: content@ },
            ResponseItem::UserMessage { content } => ItemView::User { content: content@ },
            ResponseItem::AssistantMessage { content } => ItemView::Assistant {
                content: content@,
            },
        }
    }
}

impl ResponseItem {
    /// A system-role conversation item.
    pub fn system_message(content: String) -> (r: ResponseItem)
        ensures
            r == (ResponseItem::SystemMessage { content }),
    {
        ResponseItem::SystemMessage { content }
    }

    /// A user-role conversation item.
    pub fn user_message(content: String) -> (r: ResponseItem)
        ensures
            r == (ResponseItem::UserMessage { content }),
    {
        ResponseItem::UserMessage { content }
    }

    /// An assistant-role conversation item.
    pub fn assistant_message(content: String) -> (r: ResponseItem)
        ensures
            r == (ResponseItem::AssistantMessage { content }),
    {
        ResponseItem::AssistantMessage { content }
    }
}

/// A conversation ready for the downstream engine: the ordered items and the
/// optional promoted base instructions.
#[derive(Debug, Clone, PartialEq, Eq)]
pub struct Prompt {
    pub input: Vec<ResponseItem>,
    pub base_instructions_override: Option<String>,
}

impl Default for Prompt {
    /// An empty conversation with no base instructions.
    fn default() -> (r: Prompt)
        ensures
            r.input@ == Seq::<ResponseItem>::empty(),
            r.base_instructions_override is None,
    {
        Prompt { input: Vec::new(), base_instructions_override: None }
    }
}

/// The closed role set accepted by the conversation builder.
pub open spec fn valid_role(role: Seq<char>) -> bool {
    role == "system"@ || role == "user"@ || role == "assistant"@
}

/// Every message role lies in the closed role set.
pub open spec fn all_roles_valid(msgs: Seq<YamlMessage>) -> bool {
    forall|i: int| 0 <= i < msgs.len() ==> valid_role(#[trigger] msgs[i].role@)
}

/// `i` is the position of the first message whose role lies outside the
/// closed role set.
pub open spec fn first_bad_role_at(msgs: Seq<YamlMessage>, i: int) -> bool {
    &&& 0 <= i < msgs.len()
    &&& !valid_role(msgs[i].role@)
    &&& forall|k: int| 0 <= k < i ==> valid_role(#[trigger] msgs[k].role@)
}

/// The views of a sequence of conversation items.
pub open spec fn items_view(items: Seq<ResponseItem>) -> Seq<ItemView> {
    items.map_values(|it: ResponseItem| it@)
}

/// The conversation items produced from the messages: user and assistant
/// roles mapped to their item variants with substituted content, in source
/// order; messages of any other role (the system role included) contribute
/// no item.
pub open spec fn convert_items(msgs: Seq<YamlMessage>, vars: Seq<(Seq<char>, Seq<char>)>) -> Seq<
    ItemView,
>
    decreases msgs.len(),
{
    if msgs.len() == 0 {
        Seq::empty()
    } else {
        let init = convert_items(msgs.drop_last(), vars);
        let m = msgs.last();
        if m.role@ == "user"@ {
            init.push(ItemView::User { content: subst_vars(m.content@, vars) })
        } else if m.role@ == "assistant"@ {
            init.push(ItemView::Assistant { content: subst_vars(m.content@, vars) })
        } else {
            init
        }
    }
}

/// The raw content of the first system-role message, if any.
pub open spec fn first_system_content(msgs: Seq<YamlMessage>) -> Option<Seq<char>>
    decreases msgs.len(),
{
    if msgs.len() == 0 {
        None
    } else {
        let init = first_system_content(msgs.drop_last());
        if init is Some {
            init
        } else if msgs.last().role@ == "system"@ {
            Some(msgs.last().content@)
        } else {
            None
        }
    }
}

/// The promoted base instructions: the substituted content of the first
/// system-role message, if any.
pub open spec fn base_instructions_of(
    msgs: Seq<YamlMessage>,
    vars: Seq<(Seq<char>, Seq<char>)>,
) -> Option<Seq<char>> {
    match first_system_content(msgs) {
        Some(c) => Some(subst_vars(c, vars)),
        None => None,
    }
}

impl YamlPrompt {
    /// Convert the prompt document into a conversation. Template variables
    /// are substituted into every message; each role is mapped onto its item
    /// variant, failing fast with the first role outside the closed set; the
    /// first system message's substituted content is promoted to base
    /// instructions and every system message is removed from the body.
    pub fn to_prompt(&self, template_vars: &Vec<(String, String)>) -> (r: Result<
        Prompt,
        CodexErr,
    >)
        ensures
            r is Ok <==> all_roles_valid(self.messages@),
            match r {
                Ok(p) => {
                    &&& items_view(p.input@) == convert_items(
                        self.messages@,
                        vars_view(template_vars@),
                    )
                    &&& p.base_instructions_override.deep_view() == base_instructions_of(
                        self.messages@,
                        vars_view(template_vars@),
                    )
                },
                Err(e) => e matches CodexErr::UnsupportedRole(role) && exists|i: int|
                    #![auto]
                    first_bad_role_at(self.messages@, i) && role@ == self.messages@[i].role@,
            },
    {
        let ghost vs = vars_view(template_vars@);
        let mut response_items: Vec<ResponseItem> = Vec::new();
        let mut base: Option<String> = None;
        let mut idx: usize = 0;
        proof {
            assert(self.messages@.take(0) =~= Seq::<YamlMessage>::empty());
            assert(items_view(response_items@) =~= Seq::<ItemView>::empty());
        }
        while idx < self.messages.len()
            invariant
                idx <= self.messages@.len(),
                vs == vars_view(template_vars@),
                forall|k: int| 0 <= k < idx ==> valid_role(#[trigger] self.messages@[k].role@),
                items_view(response_items@) == convert_items(
                    self.messages@.take(idx as int),
                    vs,
                ),
                base.deep_view() == base_instructions_of(self.messages@.take(idx as int), vs),
            decreases self.messages@.len() - idx,
        {
            let msg = &self.messages[idx];
            let content = substitute_template_vars(msg.content.as_str(), template_vars);
            let ghost prefix = self.messages@.take(idx as int);
            let ghost next_prefix = self.messages@.take(idx + 1);
            proof {
                reveal_strlit("system");
                reveal_strlit("user");
                reveal_strlit("assistant");
                assert(next_prefix.drop_last() =~= prefix);
                assert(next_prefix.last() == self.messages@[idx as int]);
            }
            if str_eq(msg.role.as_str(), "system") {
                if base.is_none() {
                    base = Some(content);
                }
                proof {
                    reveal_strlit("system");
                    reveal_strlit("user");
                    reveal_strlit("assistant");
                    assert("system"@.len() == 6);
                    assert("user"@.len() == 4);
                    assert("assistant"@.len() == 9);
                    assert(msg.role@ != "user"@);
                    assert(msg.role@ != "assistant"@);
                }
            } else if str_eq(msg.role.as_str(), "user") {
                let ghost before = response_items@;
                response_items.push(ResponseItem::user_message(content));
                proof {
                    assert(items_view(response_items@) =~= items_view(before).push(
                        ItemView::User { content: subst_vars(msg.content@, vs) },
                    ));
                }
            } else if str_eq(msg.role.as_str(), "assistant") {
                let ghost before = response_items@;
                response_items.push(ResponseItem::assistant_message(content));
                proof {
                    assert(items_view(response_items@) =~= items_view(before).push(
                        ItemView::Assistant { content: subst_vars(msg.content@, vs) },
                    ));
                }
            } else {
                proof {
                    assert(first_bad_role_at(self.messages@, idx as int));
                }
                return Err(CodexErr::UnsupportedRole(msg.role.clone()));
            }
            idx += 1;
        }
        proof {
            assert(self.messages@.take(self.messages@.len() as int) =~= self.messages@);
        }
        Ok(Prompt { input: response_items, base_instructions_override: base })
    }

    /// The advisory model identifier declared in the document, if any.
    pub fn get_model(&self) -> (r: Option<&str>)
        ensures
            match r {
                Some(m) => self.model is Some && m@ == self.model.unwrap()@,
                None => self.model is None,
            },
    {
        match &self.model {
            Some(m) => Some(m.as_str()),
            None => None,
        }
    }
}

impl CodexErr {
    /// A human-readable description of the error, for the invocation
    /// boundary to surface.
    pub fn message(&self) -> (r: String)
        ensures
            match self {
                CodexErr::Io(d) => r@ == "Failed to read YAML prompt file: "@ + d@,
                CodexErr::Parse(d) => r@ == "Failed to parse YAML prompt: "@ + d@,
                CodexErr::UnsupportedRole(role) => r@ == "Unsupported message role: "@ + role@,
            },
    {
        match self {
            CodexErr::Io(d) => {
                let mut s = String::from_str("Failed to read YAML prompt file: ");
                s.append(d.as_str());
                s
            },
            CodexErr::Parse(d) => {
                let mut s = String::from_str("Failed to parse YAML prompt: ");
                s.append(d.as_str());
                s
            },
            CodexErr::UnsupportedRole(role) => {
                let mut s = String::from_str("Unsupported message role: ");
                s.append(role.as_str());
                s
            },
        }
    }
}

} // verus!
