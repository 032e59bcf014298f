//! Error envelopes: JSON bodies that report a failure although the transport
//! reported none.
//!
//! The service has used three shapes for them. A document is tried against
//! each in a fixed order and the first that fits decides the message.

use crate::error::Error;
use crate::error::ErrorContext;
use crate::error::ErrorContextView;
use crate::error::ErrorView;
use crate::error::optional_text;
use crate::json::Json;
use crate::json::JsonValue;
use crate::text::join;
use crate::text::joined;
use crate::text::lemma_occurs_at_end;
use crate::text::lemma_occurs_at_start;
use crate::text::lemma_occurs_in_middle;
use crate::text::lemma_occurs_transitive;
use crate::text::lemma_part_occurs_in_joined;
use crate::text::occurs;
use crate::text::views;
use vstd::prelude::*;
use vstd::string::StringExecFns;

verus! {

/// First shape: a message and a type.
#[derive(Clone, Debug)]
pub struct MessageType {
    pub message: String,
    pub error_type: String,
}

pub struct MessageTypeView {
    pub message: Seq<char>,
    pub error_type: Seq<char>,
}

impl View for MessageType {
    type V = MessageTypeView;

    open spec fn view(&self) -> MessageTypeView {
        MessageTypeView { message: self.message@, error_type: self.error_type@ }
    }
}

/// One entry of the second shape's context: the field at fault and a code.
#[derive(Clone, Debug)]
pub struct CodeFieldContext {
    pub code: String,
    pub field: String,
}

pub struct CodeFieldContextView {
    pub code: Seq<char>,
    pub field: Seq<char>,
}

impl View for CodeFieldContext {
    type V = CodeFieldContextView;

    open spec fn view(&self) -> CodeFieldContextView {
        CodeFieldContextView { code: self.code@, field: self.field@ }
    }
}

/// Second shape: a code, a list of fields at fault, and a message that may
/// be missing.
#[derive(Clone, Debug)]
pub struct CodeContextError {
    pub code: String,
    pub context: Vec<CodeFieldContext>,
    pub message: Option<String>,
}

pub struct CodeContextErrorView {
    pub code: Seq<char>,
    pub context: Seq<CodeFieldContextView>,
    pub message: Option<Seq<char>>,
}

impl View for CodeContextError {
    type V = CodeContextErrorView;

    open spec fn view(&self) -> CodeContextErrorView {
        CodeContextErrorView {
            code: self.code@,
            context: views(self.context@),
            message: optional_text(self.message),
        }
    }
}

/// One violated constraint: its name and the value that it asks for.
#[derive(Clone, Debug)]
pub struct Constraint {
    pub key: String,
    pub value: String,
}

pub struct ConstraintView {
    pub key: Seq<char>,
    pub value: Seq<char>,
}

impl View for Constraint {
    type V = ConstraintView;

    open spec fn view(&self) -> ConstraintView {
        ConstraintView { key: self.key@, value: self.value@ }
    }
}

/// One entry of the third shape's context: a code and the constraints that
/// were violated.
#[derive(Clone, Debug)]
pub struct ConstraintsErrorContext {
    pub code: String,
    pub violated_constraints: Vec<Constraint>,
}

pub struct ConstraintsErrorContextView {
    pub code: Seq<char>,
    pub violated_constraints: Seq<ConstraintView>,
}

impl View for ConstraintsErrorContext {
    type V = ConstraintsErrorContextView;

    open spec fn view(&self) -> ConstraintsErrorContextView {
        ConstraintsErrorContextView {
            code: self.code@,
            violated_constraints: views(self.violated_constraints@),
        }
    }
}

/// Third shape: a code and a list of violated constraints.
#[derive(Clone, Debug)]
pub struct ConstraintsError {
    pub code: String,
    pub context: Vec<ConstraintsErrorContext>,
}

pub struct ConstraintsErrorView {
    pub code: Seq<char>,
    pub context: Seq<ConstraintsErrorContextView>,
}

impl View for ConstraintsError {
    type V = ConstraintsErrorView;

    open spec fn view(&self) -> ConstraintsErrorView {
        ConstraintsErrorView { code: self.code@, context: views(self.context@) }
    }
}

/// The first shape fits an object whose `message` and `type` are strings.
pub open spec fn as_message_type(value: JsonValue) -> Option<MessageTypeView> {
    if value.text_member("message"@) is Some && value.text_member("type"@) is Some {
        Some(
            MessageTypeView {
                message: value.text_member("message"@)->Some_0,
                error_type: value.text_member("type"@)->Some_0,
            },
        )
    } else {
        None
    }
}

/// A context entry of the second shape is an object whose `code` and `field`
/// are strings.
pub open spec fn as_code_field(item: JsonValue) -> Option<CodeFieldContextView> {
    if item.text_member("code"@) is Some && item.text_member("field"@) is Some {
        Some(
            CodeFieldContextView {
                code: item.text_member("code"@)->Some_0,
                field: item.text_member("field"@)->Some_0,
            },
        )
    } else {
        None
    }
}

/// The entries of a second-shape context, if every item is one.
pub open spec fn as_code_fields(items: Seq<JsonValue>) -> Option<Seq<CodeFieldContextView>> {
    if forall|i: int| 0 <= i < items.len() ==> as_code_field(#[trigger] items[i]) is Some {
        Some(Seq::new(items.len(), |i: int| as_code_field(items[i])->Some_0))
    } else {
        None
    }
}

/// A member that may be missing: a string gives its text, a missing member
/// and `null` give nothing, and anything else does not fit.
pub open spec fn optional_text_member(value: JsonValue, key: Seq<char>) -> Option<
    Option<Seq<char>>,
> {
    match value.member(key) {
        None => Some(None),
        Some(JsonValue::Null) => Some(None),
        Some(JsonValue::String(text)) => Some(Some(text)),
        Some(_) => None,
    }
}

/// The second shape fits an object whose `code` is a string, whose `context`
/// is an array of entries, and whose `error`, where it has one, is a string.
pub open spec fn as_code_context_error(value: JsonValue) -> Option<CodeContextErrorView> {
    if value.text_member("code"@) is Some && value.member("context"@) is Some && value.member(
        "context"@,
    )->Some_0 is Array && as_code_fields(value.member("context"@)->Some_0->Array_0) is Some
        && optional_text_member(value, "error"@) is Some {
        Some(
            CodeContextErrorView {
                code: value.text_member("code"@)->Some_0,
                context: as_code_fields(value.member("context"@)->Some_0->Array_0)->Some_0,
                message: optional_text_member(value, "error"@)->Some_0,
            },
        )
    } else {
        None
    }
}

/// A violated constraint is an array of exactly two strings.
pub open spec fn as_constraint(item: JsonValue) -> Option<ConstraintView> {
    if item is Array && item->Array_0.len() == 2 && item->Array_0[0] is String
        && item->Array_0[1] is String {
        Some(
            ConstraintView { key: item->Array_0[0]->String_0, value: item->Array_0[1]->String_0 },
        )
    } else {
        None
    }
}

/// The constraints of a list, if every item is one.
pub open spec fn as_constraints(items: Seq<JsonValue>) -> Option<Seq<ConstraintView>> {
    if forall|i: int| 0 <= i < items.len() ==> as_constraint(#[trigger] items[i]) is Some {
        Some(Seq::new(items.len(), |i: int| as_constraint(items[i])->Some_0))
    } else {
        None
    }
}

/// A context entry of the third shape is an object whose `code` is a string
/// and whose `violated_constraints` is an array of constraints.
pub open spec fn as_constraints_context(item: JsonValue) -> Option<ConstraintsErrorContextView> {
    if item.text_member("code"@) is Some && item.member("violated_constraints"@) is Some
        && item.member("violated_constraints"@)->Some_0 is Array && as_constraints(
        item.member("violated_constraints"@)->Some_0->Array_0,
    ) is Some {
        Some(
            ConstraintsErrorContextView {
                code: item.text_member("code"@)->Some_0,
                violated_constraints: as_constraints(
                    item.member("violated_constraints"@)->Some_0->Array_0,
                )->Some_0,
            },
        )
    } else {
        None
    }
}

/// The entries of a third-shape context, if every item is one.
pub open spec fn as_constraints_contexts(items: Seq<JsonValue>) -> Option<
    Seq<ConstraintsErrorContextView>,
> {
    if forall|i: int|
        0 <= i < items.len() ==> as_constraints_context(#[trigger] items[i]) is Some {
        Some(Seq::new(items.len(), |i: int| as_constraints_context(items[i])->Some_0))
    } else {
        None
    }
}

/// The third shape fits an object whose `code` is a string and whose
/// `context` is an array of entries.
pub open spec fn as_constraints_error(value: JsonValue) -> Option<ConstraintsErrorView> {
    if value.text_member("code"@) is Some && value.member("context"@) is Some && value.member(
        "context"@,
    )->Some_0 is Array && as_constraints_contexts(value.member("context"@)->Some_0->Array_0)
        is Some {
        Some(
            ConstraintsErrorView {
                code: value.text_member("code"@)->Some_0,
                context: as_constraints_contexts(
                    value.member("context"@)->Some_0->Array_0,
                )->Some_0,
            },
        )
    } else {
        None
    }
}

impl MessageTypeView {
    /// `{type} - {message}`
    pub open spec fn describe(self) -> Seq<char> {
        self.error_type + " - "@ + self.message
    }
}

impl CodeFieldContextView {
    /// `{field}: {code}`
    pub open spec fn describe(self) -> Seq<char> {
        self.field + ": "@ + self.code
    }
}

impl CodeContextErrorView {
    /// The entries of the context, each as its own text.
    pub open spec fn details(self) -> Seq<Seq<char>> {
        Seq::new(self.context.len(), |i: int| self.context[i].describe())
    }

    /// `{message} ({code}) - {field}: {code}, ...`, without the message and
    /// the space after it where there is none.
    pub open spec fn describe(self) -> Seq<char> {
        (match self.message {
            Some(message) => message + " ("@,
            None => "("@,
        }) + self.code + ") - "@ + joined(self.details(), ", "@)
    }
}

impl ConstraintView {
    /// `{key}: {value}`
    pub open spec fn describe(self) -> Seq<char> {
        self.key + ": "@ + self.value
    }
}

impl ConstraintsErrorContextView {
    /// The constraints, each as its own text.
    pub open spec fn details(self) -> Seq<Seq<char>> {
        Seq::new(
            self.violated_constraints.len(),
            |i: int| self.violated_constraints[i].describe(),
        )
    }

    /// `{code}: ({key}: {value}, ...)`
    pub open spec fn describe(self) -> Seq<char> {
        self.code + ": ("@ + joined(self.details(), ", "@) + ")"@
    }
}

impl ConstraintsErrorView {
    /// The entries of the context, each as its own text.
    pub open spec fn details(self) -> Seq<Seq<char>> {
        Seq::new(self.context.len(), |i: int| self.context[i].describe())
    }

    /// `{code}: {code}: ({key}: {value}, ...), ...`
    pub open spec fn describe(self) -> Seq<char> {
        self.code + ": "@ + joined(self.details(), ", "@)
    }
}

/// The message of the envelope that a document is, if it is one. The shapes
/// are tried in order and the first that fits wins.
pub open spec fn envelope_message(value: JsonValue) -> Option<Seq<char>> {
    if as_message_type(value) is Some {
        Some(as_message_type(value)->Some_0.describe())
    } else if as_code_context_error(value) is Some {
        Some(as_code_context_error(value)->Some_0.describe())
    } else if as_constraints_error(value) is Some {
        Some(as_constraints_error(value)->Some_0.describe())
    } else {
        None
    }
}

impl MessageType {
    /// Reads a document as the first shape.
    pub fn matching(value: &Json) -> (r: Option<MessageType>)
        ensures
            match r {
                Some(found) => as_message_type(value@) == Some(found@),
                None => as_message_type(value@) is None,
            },
    {
        match value.get_str("message") {
            Some(message) => match value.get_str("type") {
                Some(error_type) => Some(
                    MessageType {
                        message: String::from_str(message),
                        error_type: String::from_str(error_type),
                    },
                ),
                None => None,
            },
            None => None,
        }
    }

    /// The message of the envelope.
    pub fn describe(&self) -> (r: String)
        ensures
            r@ == self@.describe(),
    {
        let mut out = self.error_type.clone();
        out.append(" - ");
        out.append(self.message.as_str());
        out
    }
}

impl CodeFieldContext {
    /// Reads one entry of a second-shape context.
    pub fn matching(item: &Json) -> (r: Option<CodeFieldContext>)
        ensures
            match r {
                Some(found) => as_code_field(item@) == Some(found@),
                None => as_code_field(item@) is None,
            },
    {
        match item.get_str("code") {
            Some(code) => match item.get_str("field") {
                Some(field) => Some(
                    CodeFieldContext {
                        code: String::from_str(code),
                        field: String::from_str(field),
                    },
                ),
                None => None,
            },
            None => None,
        }
    }

    /// The entry as text.
    pub fn describe(&self) -> (r: String)
        ensures
            r@ == self@.describe(),
    {
        let mut out = self.field.clone();
        out.append(": ");
        out.append(self.code.as_str());
        out
    }
}

/// Reads the items of a second-shape context.
fn matching_code_fields(items: &Vec<Json>) -> (r: Option<Vec<CodeFieldContext>>)
    ensures
        match r {
            Some(found) => as_code_fields(views(items@)) == Some(views(found@)),
            None => as_code_fields(views(items@)) is None,
        },
{
    let mut out: Vec<CodeFieldContext> = Vec::new();
    let mut i: usize = 0;
    while i < items.len()
        invariant
            i <= items.len(),
            out.len() == i,
            forall|j: int|
                0 <= j < i ==> as_code_field(#[trigger] views(items@)[j]) == Some(out@[j]@),
        decreases items.len() - i,
    {
        match CodeFieldContext::matching(&items[i]) {
            Some(entry) => {
                out.push(entry);
            },
            None => {
                assert(as_code_field(views(items@)[i as int]) is None);
                return None;
            },
        }
        i += 1;
    }
    assert(as_code_fields(views(items@))->Some_0 =~= views(out@));
    Some(out)
}

impl CodeContextError {
    /// Reads a document as the second shape.
    pub fn matching(value: &Json) -> (r: Option<CodeContextError>)
        ensures
            match r {
                Some(found) => as_code_context_error(value@) == Some(found@),
                None => as_code_context_error(value@) is None,
            },
    {
        let code = match value.get_str("code") {
            Some(code) => code,
            None => {
                return None;
            },
        };
        let items = match value.get("context") {
            Some(context) => match context.as_array() {
                Some(items) => items,
                None => {
                    return None;
                },
            },
            None => {
                return None;
            },
        };
        let context = match matching_code_fields(items) {
            Some(context) => context,
            None => {
                return None;
            },
        };
        let message = match value.get("error") {
            None => None,
            Some(Json::Null) => None,
            Some(Json::String(text)) => Some(text.clone()),
            Some(_) => {
                return None;
            },
        };
        Some(CodeContextError { code: String::from_str(code), context, message })
    }

    /// The message of the envelope.
    pub fn describe(&self) -> (r: String)
        ensures
            r@ == self@.describe(),
    {
        let mut details: Vec<String> = Vec::new();
        let mut i: usize = 0;
        while i < self.context.len()
            invariant
                i <= self.context.len(),
                details.len() == i,
                forall|j: int| 0 <= j < i ==> details@[j]@ == self.context@[j]@.describe(),
            decreases self.context.len() - i,
        {
            details.push(self.context[i].describe());
            i += 1;
        }
        assert(views(details@) =~= self@.details());
        let mut out = match &self.message {
            Some(message) => {
                let mut head = message.clone();
                head.append(" (");
                head
            },
            None => String::from_str("("),
        };
        out.append(self.code.as_str());
        out.append(") - ");
        out.append(join(&details, ", ").as_str());
        out
    }
}

impl Constraint {
    /// Reads one violated constraint.
    pub fn matching(item: &Json) -> (r: Option<Constraint>)
        ensures
            match r {
                Some(found) => as_constraint(item@) == Some(found@),
                None => as_constraint(item@) is None,
            },
    {
        match item.as_array() {
            Some(parts) => {
                if parts.len() != 2 {
                    return None;
                }
                match parts[0].as_str() {
                    Some(key) => match parts[1].as_str() {
                        Some(value) => Some(
                            Constraint {
                                key: String::from_str(key),
                                value: String::from_str(value),
                            },
                        ),
                        None => None,
                    },
                    None => None,
                }
            },
            None => None,
        }
    }

    /// The constraint as text.
    pub fn describe(&self) -> (r: String)
        ensures
            r@ == self@.describe(),
    {
        let mut out = self.key.clone();
        out.append(": ");
        out.append(self.value.as_str());
        out
    }
}

/// Reads a list of violated constraints.
fn matching_constraints(items: &Vec<Json>) -> (r: Option<Vec<Constraint>>)
    ensures
        match r {
            Some(found) => as_constraints(views(items@)) == Some(views(found@)),
            None => as_constraints(views(items@)) is None,
        },
{
    let mut out: Vec<Constraint> = Vec::new();
    let mut i: usize = 0;
    while i < items.len()
        invariant
            i <= items.len(),
            out.len() == i,
            forall|j: int|
                0 <= j < i ==> as_constraint(#[trigger] views(items@)[j]) == Some(out@[j]@),
        decreases items.len() - i,
    {
        match Constraint::matching(&items[i]) {
            Some(entry) => {
                out.push(entry);
            },
            None => {
                assert(as_constraint(views(items@)[i as int]) is None);
                return None;
            },
        }
        i += 1;
    }
    assert(as_constraints(views(items@))->Some_0 =~= views(out@));
    Some(out)
}

impl ConstraintsErrorContext {
    /// Reads one entry of a third-shape context.
    pub fn matching(item: &Json) -> (r: Option<ConstraintsErrorContext>)
        ensures
            match r {
                Some(found) => as_constraints_context(item@) == Some(found@),
                None => as_constraints_context(item@) is None,
            },
    {
        let code = match item.get_str("code") {
            Some(code) => code,
            None => {
                return None;
            },
        };
        let items = match item.get("violated_constraints") {
            Some(list) => match list.as_array() {
                Some(items) => items,
                None => {
                    return None;
                },
            },
            None => {
                return None;
            },
        };
        match matching_constraints(items) {
            Some(violated_constraints) => Some(
                ConstraintsErrorContext { code: String::from_str(code), violated_constraints },
            ),
            None => None,
        }
    }

    /// The entry as text.
    pub fn describe(&self) -> (r: String)
        ensures
            r@ == self@.describe(),
    {
        let mut details: Vec<String> = Vec::new();
        let mut i: usize = 0;
        while i < self.violated_constraints.len()
            invariant
                i <= self.violated_constraints.len(),
                details.len() == i,
                forall|j: int|
                    0 <= j < i ==> details@[j]@ == self.violated_constraints@[j]@.describe(),
            decreases self.violated_constraints.len() - i,
        {
            details.push(self.violated_constraints[i].describe());
            i += 1;
        }
        assert(views(details@) =~= self@.details());
        let mut out = self.code.clone();
        out.append(": (");
        out.append(join(&details, ", ").as_str());
        out.append(")");
        out
    }
}

/// Reads the items of a third-shape context.
fn matching_constraints_contexts(items: &Vec<Json>) -> (r: Option<Vec<ConstraintsErrorContext>>)
    ensures
        match r {
            Some(found) => as_constraints_contexts(views(items@)) == Some(views(found@)),
            None => as_constraints_contexts(views(items@)) is None,
        },
{
    let mut out: Vec<ConstraintsErrorContext> = Vec::new();
    let mut i: usize = 0;
    while i < items.len()
        invariant
            i <= items.len(),
            out.len() == i,
            forall|j: int|
                0 <= j < i ==> as_constraints_context(#[trigger] views(items@)[j]) == Some(
                    out@[j]@,
                ),
        decreases items.len() - i,
    {
        match ConstraintsErrorContext::matching(&items[i]) {
            Some(entry) => {
                out.push(entry);
            },
            None => {
                assert(as_constraints_context(views(items@)[i as int]) is None);
                return None;
            },
        }
        i += 1;
    }
    assert(as_constraints_contexts(views(items@))->Some_0 =~= views(out@));
    Some(out)
}

impl ConstraintsError {
    /// Reads a document as the third shape.
    pub fn matching(value: &Json) -> (r: Option<ConstraintsError>)
        ensures
            match r {
                Some(found) => as_constraints_error(value@) == Some(found@),
                None => as_constraints_error(value@) is None,
            },
    {
        let code = match value.get_str("code") {
            Some(code) => code,
            None => {
                return None;
            },
        };
        let items = match value.get("context") {
            Some(context) => match context.as_array() {
                Some(items) => items,
                None => {
                    return None;
                },
            },
            None => {
                return None;
            },
        };
        match matching_constraints_contexts(items) {
            Some(context) => Some(ConstraintsError { code: String::from_str(code), context }),
            None => None,
        }
    }

    /// The message of the envelope.
    pub fn describe(&self) -> (r: String)
        ensures
            r@ == self@.describe(),
    {
        let mut details: Vec<String> = Vec::new();
        let mut i: usize = 0;
        while i < self.context.len()
            invariant
                i <= self.context.len(),
                details.len() == i,
                forall|j: int| 0 <= j < i ==> details@[j]@ == self.context@[j]@.describe(),
            decreases self.context.len() - i,
        {
            details.push(self.context[i].describe());
            i += 1;
        }
        assert(views(details@) =~= self@.details());
        let mut out = self.code.clone();
        out.append(": ");
        out.append(join(&details, ", ").as_str());
        out
    }
}

/// A document of the first shape is an envelope, and its message holds the
/// type and the message that the document gives.
pub proof fn lemma_message_type_reported(value: JsonValue)
    requires
        as_message_type(value) is Some,
    ensures
        envelope_message(value) == Some(as_message_type(value)->Some_0.describe()),
        occurs(envelope_message(value)->Some_0, as_message_type(value)->Some_0.error_type),
        occurs(envelope_message(value)->Some_0, as_message_type(value)->Some_0.message),
{
    let found = as_message_type(value)->Some_0;
    lemma_occurs_at_start(found.error_type, " - "@ + found.message);
    assert(found.error_type + (" - "@ + found.message) =~= found.describe());
    lemma_occurs_at_end(found.error_type + " - "@, found.message);
}

/// The text of a context entry of the second shape holds its field and its
/// code.
pub proof fn lemma_code_field_holds(entry: CodeFieldContextView)
    ensures
        occurs(entry.describe(), entry.field),
        occurs(entry.describe(), entry.code),
{
    lemma_occurs_at_start(entry.field, ": "@ + entry.code);
    assert(entry.field + (": "@ + entry.code) =~= entry.describe());
    lemma_occurs_at_end(entry.field + ": "@, entry.code);
}

/// The message of a second-shape envelope holds its code, its own message if
/// it has one, and the field and code of every entry of its context.
pub proof fn lemma_code_context_holds(found: CodeContextErrorView)
    ensures
        occurs(found.describe(), found.code),
        found.message is Some ==> occurs(found.describe(), found.message->Some_0),
        forall|i: int|
            0 <= i < found.context.len() ==> occurs(
                found.describe(),
                (#[trigger] found.context[i]).field,
            ) && occurs(found.describe(), found.context[i].code),
{
    let text = found.describe();
    let head = match found.message {
        Some(message) => message + " ("@,
        None => "("@,
    };
    let list = joined(found.details(), ", "@);
    assert(text == head + found.code + ") - "@ + list);
    assert(occurs(text, found.code)) by {
        lemma_occurs_in_middle(head, found.code, ") - "@ + list);
        assert(head + found.code + (") - "@ + list) =~= head + found.code + ") - "@ + list);
    }
    assert(found.message is Some ==> occurs(text, found.message->Some_0)) by {
        if found.message is Some {
            let message = found.message->Some_0;
            let rest = " ("@ + found.code + ") - "@ + list;
            lemma_occurs_at_start(message, rest);
            assert(message + rest =~= message + " ("@ + found.code + ") - "@ + list);
        }
    }
    assert(occurs(text, list)) by {
        lemma_occurs_at_end(head + found.code + ") - "@, list);
    }
    assert forall|i: int| 0 <= i < found.context.len() implies occurs(
        text,
        (#[trigger] found.context[i]).field,
    ) && occurs(text, found.context[i].code) by {
        let entry = found.context[i];
        assert(found.details()[i] == entry.describe());
        lemma_part_occurs_in_joined(found.details(), ", "@, i);
        lemma_occurs_transitive(text, list, entry.describe());
        lemma_code_field_holds(entry);
        lemma_occurs_transitive(text, entry.describe(), entry.field);
        lemma_occurs_transitive(text, entry.describe(), entry.code);
    }
}

/// A document of the second shape that is not of the first is an envelope.
/// Its message holds the code, the message that the document gives if it
/// gives one, and the field and code of every entry of the context.
pub proof fn lemma_code_context_reported(value: JsonValue)
    requires
        as_message_type(value) is None,
        as_code_context_error(value) is Some,
    ensures
        envelope_message(value) == Some(as_code_context_error(value)->Some_0.describe()),
        occurs(envelope_message(value)->Some_0, as_code_context_error(value)->Some_0.code),
        as_code_context_error(value)->Some_0.message is Some ==> occurs(
            envelope_message(value)->Some_0,
            as_code_context_error(value)->Some_0.message->Some_0,
        ),
        forall|i: int|
            0 <= i < as_code_context_error(value)->Some_0.context.len() ==> occurs(
                envelope_message(value)->Some_0,
                (#[trigger] as_code_context_error(value)->Some_0.context[i]).field,
            ) && occurs(
                envelope_message(value)->Some_0,
                as_code_context_error(value)->Some_0.context[i].code,
            ),
{
    lemma_code_context_holds(as_code_context_error(value)->Some_0);
}

/// The text of a context entry of the third shape holds its code and the
/// key and value of every constraint.
pub proof fn lemma_constraints_context_holds(entry: ConstraintsErrorContextView)
    ensures
        occurs(entry.describe(), entry.code),
        forall|j: int|
            0 <= j < entry.violated_constraints.len() ==> occurs(
                entry.describe(),
                (#[trigger] entry.violated_constraints[j]).key,
            ) && occurs(entry.describe(), entry.violated_constraints[j].value),
{
    let text = entry.describe();
    let list = joined(entry.details(), ", "@);
    lemma_occurs_at_start(entry.code, ": ("@ + list + ")"@);
    assert(entry.code + (": ("@ + list + ")"@) =~= text);
    lemma_occurs_in_middle(entry.code + ": ("@, list, ")"@);
    assert forall|j: int| 0 <= j < entry.violated_constraints.len() implies occurs(
        text,
        (#[trigger] entry.violated_constraints[j]).key,
    ) && occurs(text, entry.violated_constraints[j].value) by {
        let pair = entry.violated_constraints[j];
        lemma_part_occurs_in_joined(entry.details(), ", "@, j);
        lemma_occurs_transitive(text, list, pair.describe());
        lemma_occurs_at_start(pair.key, ": "@ + pair.value);
        assert(pair.key + (": "@ + pair.value) =~= pair.describe());
        lemma_occurs_at_end(pair.key + ": "@, pair.value);
        lemma_occurs_transitive(text, pair.describe(), pair.key);
        lemma_occurs_transitive(text, pair.describe(), pair.value);
    }
}

/// A document of the third shape that is of neither other shape is an
/// envelope. Its message holds the code, the code of every entry of the
/// context, and the key and value of every violated constraint.
pub proof fn lemma_constraints_reported(value: JsonValue)
    requires
        as_message_type(value) is None,
        as_code_context_error(value) is None,
        as_constraints_error(value) is Some,
    ensures
        envelope_message(value) == Some(as_constraints_error(value)->Some_0.describe()),
        occurs(envelope_message(value)->Some_0, as_constraints_error(value)->Some_0.code),
        forall|i: int|
            0 <= i < as_constraints_error(value)->Some_0.context.len() ==> occurs(
                envelope_message(value)->Some_0,
                (#[trigger] as_constraints_error(value)->Some_0.context[i]).code,
            ),
        forall|i: int, j: int|
            0 <= i < as_constraints_error(value)->Some_0.context.len() && 0 <= j
                < as_constraints_error(value)->Some_0.context[i].violated_constraints.len()
                ==> occurs(
                envelope_message(value)->Some_0,
                (#[trigger] as_constraints_error(
                    value,
                )->Some_0.context[i].violated_constraints[j]).key,
            ) && occurs(
                envelope_message(value)->Some_0,
                as_constraints_error(value)->Some_0.context[i].violated_constraints[j].value,
            ),
{
    let found = as_constraints_error(value)->Some_0;
    let text = found.describe();
    let list = joined(found.details(), ", "@);
    lemma_occurs_at_start(found.code, ": "@ + list);
    assert(found.code + (": "@ + list) =~= text);
    lemma_occurs_at_end(found.code + ": "@, list);
    assert forall|i: int| 0 <= i < found.context.len() implies occurs(
        text,
        (#[trigger] found.context[i]).code,
    ) by {
        let entry = found.context[i];
        lemma_part_occurs_in_joined(found.details(), ", "@, i);
        lemma_occurs_transitive(text, list, entry.describe());
        lemma_constraints_context_holds(entry);
        lemma_occurs_transitive(text, entry.describe(), entry.code);
    }
    assert forall|i: int, j: int|
        0 <= i < found.context.len() && 0 <= j
            < found.context[i].violated_constraints.len() implies occurs(
        text,
        (#[trigger] found.context[i].violated_constraints[j]).key,
    ) && occurs(text, found.context[i].violated_constraints[j].value) by {
        let entry = found.context[i];
        let pair = entry.violated_constraints[j];
        lemma_part_occurs_in_joined(found.details(), ", "@, i);
        lemma_occurs_transitive(text, list, entry.describe());
        lemma_constraints_context_holds(entry);
        lemma_occurs_transitive(text, entry.describe(), pair.key);
        lemma_occurs_transitive(text, entry.describe(), pair.value);
    }
}

/// A document of none of the three shapes is no envelope.
pub proof fn lemma_other_documents_pass(value: JsonValue)
    requires
        as_message_type(value) is None,
        as_code_context_error(value) is None,
        as_constraints_error(value) is None,
    ensures
        envelope_message(value) is None,
{
}

/// Matching is a function of the document: two runs on the same document
/// agree on whether it is an envelope and on its message.
pub proof fn lemma_same_document_same_match(
    value: JsonValue,
    first: Option<Seq<char>>,
    second: Option<Seq<char>>,
)
    requires
        first == envelope_message(value),
        second == envelope_message(value),
    ensures
        first == second,
{
}

/// The request error that an envelope with the given message stands for.
pub open spec fn envelope_error(message: Seq<char>) -> ErrorView {
    ErrorView::Request(ErrorContextView { message, url: None, value: None, extra: None })
}

/// Tells whether a document is an error envelope. A document that fits none
/// of the three shapes passes; one that fits is reported as a request error
/// whose message is that of the first shape that fits.
pub fn is_request_error(value: &Json) -> (r: Result<(), Error>)
    ensures
        match envelope_message(value@) {
            Some(message) => r is Err && r->Err_0@ == envelope_error(message),
            None => r is Ok,
        },
{
    let message = match MessageType::matching(value) {
        Some(found) => found.describe(),
        None => match CodeContextError::matching(value) {
            Some(found) => found.describe(),
            None => match ConstraintsError::matching(value) {
                Some(found) => found.describe(),
                None => {
                    return Ok(());
                },
            },
        },
    };
    Err(Error::Request(ErrorContext { message, url: None, value: None, extra: None }))
}

} // verus!
