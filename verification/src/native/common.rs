use vstd::prelude::*;

use crate::attrs::{
    spec_string_attr, spec_opt_string_attr, spec_bool_attr, spec_usize_attr,
    spec_opt_datetime_attr, spec_req_datetime_attr, attrs_find, string_attr, opt_string_attr,
    bool_attr, usize_attr, opt_datetime_attr, req_datetime_attr, attr_value,
};
use crate::datetime::DateTimeUtc;
use crate::errors::{Error, ErrorV};

verus! {

// ---------------------------------------------------------------------------
// The audit unit: a Value or a Reason records who set a value, in what role,
// when, and the free text itself.
// ---------------------------------------------------------------------------

/// A historical value assigned to a field: actor, optional actor id, role,
/// optional timestamp, and the free-text content of the element body.
#[derive(Clone, Debug, PartialEq, Eq)]
pub struct Value {
    pub by: String,
    pub by_unique_id: Option<String>,
    pub role: String,
    pub when: Option<DateTimeUtc>,
    pub value: String,
}

/// The mathematical shadow of [`Value`].
#[verifier::ext_equal]
pub struct ValueV {
    pub by: Seq<char>,
    pub by_unique_id: Option<Seq<char>>,
    pub role: Seq<char>,
    pub when: Option<DateTimeUtc>,
    pub value: Seq<char>,
}

impl DeepView for Value {
    type V = ValueV;

    open spec fn deep_view(&self) -> ValueV {
        ValueV {
            by: self.by.deep_view(),
            by_unique_id: self.by_unique_id.deep_view(),
            role: self.role.deep_view(),
            when: self.when.deep_view(),
            value: self.value.deep_view(),
        }
    }
}

/// A recorded justification for a value change, structurally parallel to
/// [`Value`].
#[derive(Clone, Debug, PartialEq, Eq)]
pub struct Reason {
    pub by: String,
    pub by_unique_id: Option<String>,
    pub role: String,
    pub when: Option<DateTimeUtc>,
    pub value: String,
}

/// The mathematical shadow of [`Reason`].
#[verifier::ext_equal]
pub struct ReasonV {
    pub by: Seq<char>,
    pub by_unique_id: Option<Seq<char>>,
    pub role: Seq<char>,
    pub when: Option<DateTimeUtc>,
    pub value: Seq<char>,
}

impl DeepView for Reason {
    type V = ReasonV;

    open spec fn deep_view(&self) -> ReasonV {
        ReasonV {
            by: self.by.deep_view(),
            by_unique_id: self.by_unique_id.deep_view(),
            role: self.role.deep_view(),
            when: self.when.deep_view(),
            value: self.value.deep_view(),
        }
    }
}

/// One audit-history entry of a field: an id, an optional [`Value`], and an
/// optional [`Reason`] present only when the change carried a justification.
#[derive(Clone, Debug, PartialEq, Eq)]
pub struct Entry {
    pub entry_id: String,
    pub value: Option<Value>,
    pub reason: Option<Reason>,
}

/// The mathematical shadow of [`Entry`].
#[verifier::ext_equal]
pub struct EntryV {
    pub entry_id: Seq<char>,
    pub value: Option<ValueV>,
    pub reason: Option<ReasonV>,
}

impl DeepView for Entry {
    type V = EntryV;

    open spec fn deep_view(&self) -> EntryV {
        EntryV {
            entry_id: self.entry_id.deep_view(),
            value: self.value.deep_view(),
            reason: self.reason.deep_view(),
        }
    }
}

/// A free-text annotation on a field: an id and an optional [`Value`] —
/// parallel to [`Entry`] but without a reason.
#[derive(Clone, Debug, PartialEq, Eq)]
pub struct Comment {
    pub comment_id: String,
    pub value: Option<Value>,
}

/// The mathematical shadow of [`Comment`].
#[verifier::ext_equal]
pub struct CommentV {
    pub comment_id: Seq<char>,
    pub value: Option<ValueV>,
}

impl DeepView for Comment {
    type V = CommentV;

    open spec fn deep_view(&self) -> CommentV {
        CommentV { comment_id: self.comment_id.deep_view(), value: self.value.deep_view() }
    }
}

/// One data point of a category: its kind and error state, its audit history
/// (entries) and its annotations (comments), both in document order.
#[derive(Clone, Debug, PartialEq, Eq)]
pub struct Field {
    pub name: String,
    pub field_type: String,
    pub data_type: Option<String>,
    pub error_code: String,
    pub when_created: Option<DateTimeUtc>,
    pub keep_history: bool,
    pub entries: Option<Vec<Entry>>,
    pub comments: Option<Vec<Comment>>,
}

/// The mathematical shadow of [`Field`].
#[verifier::ext_equal]
pub struct FieldV {
    pub name: Seq<char>,
    pub field_type: Seq<char>,
    pub data_type: Option<Seq<char>>,
    pub error_code: Seq<char>,
    pub when_created: Option<DateTimeUtc>,
    pub keep_history: bool,
    pub entries: Option<Seq<EntryV>>,
    pub comments: Option<Seq<CommentV>>,
}

impl DeepView for Field {
    type V = FieldV;

    open spec fn deep_view(&self) -> FieldV {
        FieldV {
            name: self.name.deep_view(),
            field_type: self.field_type.deep_view(),
            data_type: self.data_type.deep_view(),
            error_code: self.error_code.deep_view(),
            when_created: self.when_created.deep_view(),
            keep_history: self.keep_history,
            entries: self.entries.deep_view(),
            comments: self.comments.deep_view(),
        }
    }
}

/// A group of fields; `highest_index` counts repeating-group instances.
#[derive(Clone, Debug, PartialEq, Eq)]
pub struct Category {
    pub name: String,
    pub category_type: String,
    pub highest_index: usize,
    pub fields: Option<Vec<Field>>,
}

/// The mathematical shadow of [`Category`].
#[verifier::ext_equal]
pub struct CategoryV {
    pub name: Seq<char>,
    pub category_type: Seq<char>,
    pub highest_index: usize,
    pub fields: Option<Seq<FieldV>>,
}

impl DeepView for Category {
    type V = CategoryV;

    open spec fn deep_view(&self) -> CategoryV {
        CategoryV {
            name: self.name.deep_view(),
            category_type: self.category_type.deep_view(),
            highest_index: self.highest_index,
            fields: self.fields.deep_view(),
        }
    }
}

/// A signature or workflow snapshot of a form.
#[derive(Clone, Debug, PartialEq, Eq)]
pub struct State {
    pub value: String,
    pub signer: String,
    pub signer_unique_id: String,
    pub date_signed: Option<DateTimeUtc>,
}

/// The mathematical shadow of [`State`].
#[verifier::ext_equal]
pub struct StateV {
    pub value: Seq<char>,
    pub signer: Seq<char>,
    pub signer_unique_id: Seq<char>,
    pub date_signed: Option<DateTimeUtc>,
}

impl DeepView for State {
    type V = StateV;

    open spec fn deep_view(&self) -> StateV {
        StateV {
            value: self.value.deep_view(),
            signer: self.signer.deep_view(),
            signer_unique_id: self.signer_unique_id.deep_view(),
            date_signed: self.date_signed.deep_view(),
        }
    }
}

/// One form of a patient: metadata, flags, its signature [`State`]s and its
/// [`Category`]s, both in document order and absent — never empty — when no
/// such child was parsed.
#[derive(Clone, Debug, PartialEq, Eq)]
pub struct Form {
    pub name: String,
    pub last_modified: Option<DateTimeUtc>,
    pub who_last_modified_name: Option<String>,
    pub who_last_modified_role: Option<String>,
    pub when_created: usize,
    pub has_errors: bool,
    pub has_warnings: bool,
    pub locked: bool,
    pub user: Option<String>,
    pub date_time_changed: Option<DateTimeUtc>,
    pub form_title: String,
    pub form_index: usize,
    pub form_group: Option<String>,
    pub form_state: String,
    pub states: Option<Vec<State>>,
    pub categories: Option<Vec<Category>>,
}

/// The mathematical shadow of [`Form`].
#[verifier::ext_equal]
pub struct FormV {
    pub name: Seq<char>,
    pub last_modified: Option<DateTimeUtc>,
    pub who_last_modified_name: Option<Seq<char>>,
    pub who_last_modified_role: Option<Seq<char>>,
    pub when_created: usize,
    pub has_errors: bool,
    pub has_warnings: bool,
    pub locked: bool,
    pub user: Option<Seq<char>>,
    pub date_time_changed: Option<DateTimeUtc>,
    pub form_title: Seq<char>,
    pub form_index: usize,
    pub form_group: Option<Seq<char>>,
    pub form_state: Seq<char>,
    pub states: Option<Seq<StateV>>,
    pub categories: Option<Seq<CategoryV>>,
}

impl DeepView for Form {
    type V = FormV;

    open spec fn deep_view(&self) -> FormV {
        FormV {
            name: self.name.deep_view(),
            last_modified: self.last_modified.deep_view(),
            who_last_modified_name: self.who_last_modified_name.deep_view(),
            who_last_modified_role: self.who_last_modified_role.deep_view(),
            when_created: self.when_created,
            has_errors: self.has_errors,
            has_warnings: self.has_warnings,
            locked: self.locked,
            user: self.user.deep_view(),
            date_time_changed: self.date_time_changed.deep_view(),
            form_title: self.form_title.deep_view(),
            form_index: self.form_index,
            form_group: self.form_group.deep_view(),
            form_state: self.form_state.deep_view(),
            states: self.states.deep_view(),
            categories: self.categories.deep_view(),
        }
    }
}

// ---------------------------------------------------------------------------
// Typed node constructors: pure coercion of one tag's attribute list into a
// node with empty children, by the uniform rules of the dialect.
// ---------------------------------------------------------------------------

/// What [`Value::from_attributes`] builds: `when` is required-strict — blank
/// degrades to `None`, an unparsable non-empty value is fatal.
pub open spec fn spec_value_from_attrs(a: Seq<(Seq<char>, Seq<char>)>) -> Result<ValueV, ErrorV> {
    match spec_req_datetime_attr(a, "when"@) {
        Ok(when) => Ok(
            ValueV {
                by: spec_string_attr(a, "by"@),
                by_unique_id: spec_opt_string_attr(a, "byUniqueId"@),
                role: spec_string_attr(a, "role"@),
                when,
                value: Seq::empty(),
            },
        ),
        Err(e) => Err(e),
    }
}

impl Value {
    /// Builds a `Value` from one tag's attributes; the element body is filled
    /// in later, so `value` starts empty.
    pub fn from_attributes(attrs: &Vec<(String, String)>) -> (r: Result<Value, Error>)
        ensures
            match r {
                Ok(v) => spec_value_from_attrs(attrs.deep_view()) == Ok::<_, ErrorV>(v.deep_view()),
                Err(e) => spec_value_from_attrs(attrs.deep_view()) == Err::<ValueV, _>(
                    e.deep_view(),
                ),
            },
    {
        let when = match req_datetime_attr(attrs, "when") {
            Ok(w) => w,
            Err(e) => {
                return Err(e);
            },
        };
        Ok(
            Value {
                by: string_attr(attrs, "by"),
                by_unique_id: opt_string_attr(attrs, "byUniqueId"),
                role: string_attr(attrs, "role"),
                when,
                value: String::new(),
            },
        )
    }
}

/// What [`Reason::from_attributes`] builds; the same rules as a value.
pub open spec fn spec_reason_from_attrs(a: Seq<(Seq<char>, Seq<char>)>) -> Result<ReasonV, ErrorV> {
    match spec_req_datetime_attr(a, "when"@) {
        Ok(when) => Ok(
            ReasonV {
                by: spec_string_attr(a, "by"@),
                by_unique_id: spec_opt_string_attr(a, "byUniqueId"@),
                role: spec_string_attr(a, "role"@),
                when,
                value: Seq::empty(),
            },
        ),
        Err(e) => Err(e),
    }
}

impl Reason {
    /// Builds a `Reason` from one tag's attributes; the element body is
    /// filled in later, so `value` starts empty.
    pub fn from_attributes(attrs: &Vec<(String, String)>) -> (r: Result<Reason, Error>)
        ensures
            match r {
                Ok(v) => spec_reason_from_attrs(attrs.deep_view()) == Ok::<_, ErrorV>(
                    v.deep_view(),
                ),
                Err(e) => spec_reason_from_attrs(attrs.deep_view()) == Err::<ReasonV, _>(
                    e.deep_view(),
                ),
            },
    {
        let when = match req_datetime_attr(attrs, "when") {
            Ok(w) => w,
            Err(e) => {
                return Err(e);
            },
        };
        Ok(
            Reason {
                by: string_attr(attrs, "by"),
                by_unique_id: opt_string_attr(attrs, "byUniqueId"),
                role: string_attr(attrs, "role"),
                when,
                value: String::new(),
            },
        )
    }
}

/// What [`Entry::from_attributes`] builds: the id comes from `id`, or from
/// the `entryId` alias only where `id` is absent; children start absent.
pub open spec fn spec_entry_from_attrs(a: Seq<(Seq<char>, Seq<char>)>) -> EntryV {
    let entry_id = match attrs_find(a, "id"@) {
        Some(v) => v,
        None => spec_string_attr(a, "entryId"@),
    };
    EntryV { entry_id, value: None, reason: None }
}

impl Entry {
    /// Builds an `Entry` from one tag's attributes; never fails.
    pub fn from_attributes(attrs: &Vec<(String, String)>) -> (r: Result<Entry, Error>)
        ensures
            r matches Ok(en) && en.deep_view() == spec_entry_from_attrs(attrs.deep_view()),
    {
        let entry_id = match attr_value(attrs, "id") {
            Some(v) => v,
            None => string_attr(attrs, "entryId"),
        };
        Ok(Entry { entry_id, value: None, reason: None })
    }
}

/// What [`Comment::from_attributes`] builds: the id comes from `id`, or from
/// the `commentId` alias only where `id` is absent; the nested value starts
/// absent.
pub open spec fn spec_comment_from_attrs(a: Seq<(Seq<char>, Seq<char>)>) -> CommentV {
    let comment_id = match attrs_find(a, "id"@) {
        Some(v) => v,
        None => spec_string_attr(a, "commentId"@),
    };
    CommentV { comment_id, value: None }
}

impl Comment {
    /// Builds a `Comment` from one tag's attributes; never fails.
    pub fn from_attributes(attrs: &Vec<(String, String)>) -> (r: Result<Comment, Error>)
        ensures
            r matches Ok(c) && c.deep_view() == spec_comment_from_attrs(attrs.deep_view()),
    {
        let comment_id = match attr_value(attrs, "id") {
            Some(v) => v,
            None => string_attr(attrs, "commentId"),
        };
        Ok(Comment { comment_id, value: None })
    }
}

/// What [`Field::from_attributes`] builds: `whenCreated` is required-strict —
/// blank degrades to `None`, an unparsable non-empty value is fatal.
pub open spec fn spec_field_from_attrs(a: Seq<(Seq<char>, Seq<char>)>) -> Result<FieldV, ErrorV> {
    match spec_req_datetime_attr(a, "whenCreated"@) {
        Ok(when_created) => Ok(
            FieldV {
                name: spec_string_attr(a, "name"@),
                field_type: spec_string_attr(a, "type"@),
                data_type: spec_opt_string_attr(a, "dataType"@),
                error_code: spec_string_attr(a, "errorCode"@),
                when_created,
                keep_history: spec_bool_attr(a, "keepHistory"@),
                entries: None,
                comments: None,
            },
        ),
        Err(e) => Err(e),
    }
}

impl Field {
    /// Builds a `Field` from one tag's attributes, children absent.
    pub fn from_attributes(attrs: &Vec<(String, String)>) -> (r: Result<Field, Error>)
        ensures
            match r {
                Ok(f) => spec_field_from_attrs(attrs.deep_view()) == Ok::<_, ErrorV>(f.deep_view()),
                Err(e) => spec_field_from_attrs(attrs.deep_view()) == Err::<FieldV, _>(
                    e.deep_view(),
                ),
            },
    {
        let when_created = match req_datetime_attr(attrs, "whenCreated") {
            Ok(w) => w,
            Err(e) => {
                return Err(e);
            },
        };
        Ok(
            Field {
                name: string_attr(attrs, "name"),
                field_type: string_attr(attrs, "type"),
                data_type: opt_string_attr(attrs, "dataType"),
                error_code: string_attr(attrs, "errorCode"),
                when_created,
                keep_history: bool_attr(attrs, "keepHistory"),
                entries: None,
                comments: None,
            },
        )
    }
}

/// What [`Category::from_attributes`] builds; never fails.
pub open spec fn spec_category_from_attrs(a: Seq<(Seq<char>, Seq<char>)>) -> CategoryV {
    CategoryV {
        name: spec_string_attr(a, "name"@),
        category_type: spec_string_attr(a, "type"@),
        highest_index: spec_usize_attr(a, "highestIndex"@),
        fields: None,
    }
}

impl Category {
    /// Builds a `Category` from one tag's attributes, children absent.
    pub fn from_attributes(attrs: &Vec<(String, String)>) -> (r: Result<Category, Error>)
        ensures
            r matches Ok(c) && c.deep_view() == spec_category_from_attrs(attrs.deep_view()),
    {
        Ok(
            Category {
                name: string_attr(attrs, "name"),
                category_type: string_attr(attrs, "type"),
                highest_index: usize_attr(attrs, "highestIndex"),
                fields: None,
            },
        )
    }
}

/// What [`State::from_attributes`] builds: `dateSigned` is lenient — blank
/// and unparsable values both degrade to `None`.
pub open spec fn spec_state_from_attrs(a: Seq<(Seq<char>, Seq<char>)>) -> StateV {
    StateV {
        value: spec_string_attr(a, "value"@),
        signer: spec_string_attr(a, "signer"@),
        signer_unique_id: spec_string_attr(a, "signerUniqueId"@),
        date_signed: spec_opt_datetime_attr(a, "dateSigned"@),
    }
}

impl State {
    /// Builds a `State` from one tag's attributes; never fails.
    pub fn from_attributes(attrs: &Vec<(String, String)>) -> (r: Result<State, Error>)
        ensures
            r matches Ok(st) && st.deep_view() == spec_state_from_attrs(attrs.deep_view()),
    {
        Ok(
            State {
                value: string_attr(attrs, "value"),
                signer: string_attr(attrs, "signer"),
                signer_unique_id: string_attr(attrs, "signerUniqueId"),
                date_signed: opt_datetime_attr(attrs, "dateSigned"),
            },
        )
    }
}

/// What [`Form::from_attributes`] builds: `lastModified` and
/// `dateTimeChanged` are lenient, the numbers and booleans follow the uniform
/// coercion rules; never fails.
pub open spec fn spec_form_from_attrs(a: Seq<(Seq<char>, Seq<char>)>) -> FormV {
    FormV {
        name: spec_string_attr(a, "name"@),
        last_modified: spec_opt_datetime_attr(a, "lastModified"@),
        who_last_modified_name: spec_opt_string_attr(a, "whoLastModifiedName"@),
        who_last_modified_role: spec_opt_string_attr(a, "whoLastModifiedRole"@),
        when_created: spec_usize_attr(a, "whenCreated"@),
        has_errors: spec_bool_attr(a, "hasErrors"@),
        has_warnings: spec_bool_attr(a, "hasWarnings"@),
        locked: spec_bool_attr(a, "locked"@),
        user: spec_opt_string_attr(a, "user"@),
        date_time_changed: spec_opt_datetime_attr(a, "dateTimeChanged"@),
        form_title: spec_string_attr(a, "formTitle"@),
        form_index: spec_usize_attr(a, "formIndex"@),
        form_group: spec_opt_string_attr(a, "formGroup"@),
        form_state: spec_string_attr(a, "formState"@),
        states: None,
        categories: None,
    }
}

impl Form {
    /// Builds a `Form` from one tag's attributes, children absent; never
    /// fails.
    pub fn from_attributes(attrs: &Vec<(String, String)>) -> (r: Result<Form, Error>)
        ensures
            r matches Ok(f) && f.deep_view() == spec_form_from_attrs(attrs.deep_view()),
    {
        Ok(
            Form {
                name: string_attr(attrs, "name"),
                last_modified: opt_datetime_attr(attrs, "lastModified"),
                who_last_modified_name: opt_string_attr(attrs, "whoLastModifiedName"),
                who_last_modified_role: opt_string_attr(attrs, "whoLastModifiedRole"),
                when_created: usize_attr(attrs, "whenCreated"),
                has_errors: bool_attr(attrs, "hasErrors"),
                has_warnings: bool_attr(attrs, "hasWarnings"),
                locked: bool_attr(attrs, "locked"),
                user: opt_string_attr(attrs, "user"),
                date_time_changed: opt_datetime_attr(attrs, "dateTimeChanged"),
                form_title: string_attr(attrs, "formTitle"),
                form_index: usize_attr(attrs, "formIndex"),
                form_group: opt_string_attr(attrs, "formGroup"),
                form_state: string_attr(attrs, "formState"),
                states: None,
                categories: None,
            },
        )
    }
}

} // verus!
