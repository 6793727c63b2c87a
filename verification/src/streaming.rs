//! The streaming tree parser: a single-pass state machine that consumes
//! low-level XML tokens and assembles the nested subject document tree.
//!
//! What is currently open is a single chain of typed frames, one per element
//! kind, so that same-named tags at different depths are routed correctly and
//! tags outside their expected ancestor context are ignored rather than
//! failing the whole document. Each frame holds the accumulators for its
//! not-yet-closed children; a closing tag seals them onto the node built at
//! open time and hands the finished node to its parent's accumulator.

use vstd::prelude::*;

use crate::attrs::str_eq;
use crate::errors::{Error, ErrorV};
use crate::native::common::{
    spec_category_from_attrs, spec_comment_from_attrs, spec_entry_from_attrs,
    spec_field_from_attrs, spec_form_from_attrs, spec_reason_from_attrs, spec_state_from_attrs,
    spec_value_from_attrs, Category, CategoryV, Comment, CommentV, Entry, EntryV, Field, FieldV,
    Form, FormV, Reason, ReasonV, State, StateV, Value, ValueV,
};
use crate::native::subject_native::{
    spec_patient_from_attrs, Patient, PatientV, SubjectNative, SubjectNativeV,
};

verus! {

// ---------------------------------------------------------------------------
// Tokens: the structural events the external tokenizer yields.
// ---------------------------------------------------------------------------

/// One structural event of the XML token source, with its attributes already
/// decoded to a plain string list in document order.
#[derive(Clone, Debug, PartialEq, Eq)]
pub enum Token {
    /// An opening tag `<name ...>`.
    Start { name: String, attrs: Vec<(String, String)> },
    /// A self-closed tag `<name ... />`.
    Empty { name: String, attrs: Vec<(String, String)> },
    /// A closing tag `</name>`.
    End { name: String },
    /// Character data between tags.
    Text { text: String },
    /// The end of the document.
    Eof,
    /// Any other event — declarations, comments, processing instructions, or
    /// a tag whose name is not valid UTF-8; all are ignored.
    Other,
}

/// The mathematical shadow of [`Token`].
#[verifier::ext_equal]
pub enum TokenV {
    Start { name: Seq<char>, attrs: Seq<(Seq<char>, Seq<char>)> },
    Empty { name: Seq<char>, attrs: Seq<(Seq<char>, Seq<char>)> },
    End { name: Seq<char> },
    Text { text: Seq<char> },
    Eof,
    Other,
}

impl DeepView for Token {
    type V = TokenV;

    open spec fn deep_view(&self) -> TokenV {
        match self {
            Token::Start { name, attrs } => TokenV::Start {
                name: name.deep_view(),
                attrs: attrs.deep_view(),
            },
            Token::Empty { name, attrs } => TokenV::Empty {
                name: name.deep_view(),
                attrs: attrs.deep_view(),
            },
            Token::End { name } => TokenV::End { name: name.deep_view() },
            Token::Text { text } => TokenV::Text { text: text.deep_view() },
            Token::Eof => TokenV::Eof,
            Token::Other => TokenV::Other,
        }
    }
}

// ---------------------------------------------------------------------------
// Frames: one per currently-open element, each holding the accumulators for
// its not-yet-closed children.
// ---------------------------------------------------------------------------

/// The open leaf of an entry or comment: a `<value>` or `<reason>` element
/// whose body text is still being accumulated into its `value` field.
#[derive(Clone, Debug, PartialEq, Eq)]
pub enum LeafFrame {
    OpenValue(Value),
    OpenReason(Reason),
}

/// The mathematical shadow of [`LeafFrame`].
#[verifier::ext_equal]
pub enum LeafFrameV {
    OpenValue(ValueV),
    OpenReason(ReasonV),
}

impl DeepView for LeafFrame {
    type V = LeafFrameV;

    open spec fn deep_view(&self) -> LeafFrameV {
        match self {
            LeafFrame::OpenValue(v) => LeafFrameV::OpenValue(v.deep_view()),
            LeafFrame::OpenReason(r) => LeafFrameV::OpenReason(r.deep_view()),
        }
    }
}

/// An open `<entry>` element.
#[derive(Clone, Debug, PartialEq, Eq)]
pub struct EntryFrame {
    pub entry: Entry,
    pub leaf: Option<LeafFrame>,
}

/// The mathematical shadow of [`EntryFrame`].
#[verifier::ext_equal]
pub struct EntryFrameV {
    pub entry: EntryV,
    pub leaf: Option<LeafFrameV>,
}

impl DeepView for EntryFrame {
    type V = EntryFrameV;

    open spec fn deep_view(&self) -> EntryFrameV {
        EntryFrameV { entry: self.entry.deep_view(), leaf: self.leaf.deep_view() }
    }
}

/// An open `<comment>` element.
#[derive(Clone, Debug, PartialEq, Eq)]
pub struct CommentFrame {
    pub comment: Comment,
    pub leaf: Option<LeafFrame>,
}

/// The mathematical shadow of [`CommentFrame`].
#[verifier::ext_equal]
pub struct CommentFrameV {
    pub comment: CommentV,
    pub leaf: Option<LeafFrameV>,
}

impl DeepView for CommentFrame {
    type V = CommentFrameV;

    open spec fn deep_view(&self) -> CommentFrameV {
        CommentFrameV { comment: self.comment.deep_view(), leaf: self.leaf.deep_view() }
    }
}

/// The open child of a field: an entry or a comment, whichever tag is open.
#[derive(Clone, Debug, PartialEq, Eq)]
pub enum FieldChild {
    OpenEntry(EntryFrame),
    OpenComment(CommentFrame),
}

/// The mathematical shadow of [`FieldChild`].
#[verifier::ext_equal]
pub enum FieldChildV {
    OpenEntry(EntryFrameV),
    OpenComment(CommentFrameV),
}

impl DeepView for FieldChild {
    type V = FieldChildV;

    open spec fn deep_view(&self) -> FieldChildV {
        match self {
            FieldChild::OpenEntry(e) => FieldChildV::OpenEntry(e.deep_view()),
            FieldChild::OpenComment(c) => FieldChildV::OpenComment(c.deep_view()),
        }
    }
}

/// An open `<field>` element with its accumulated entries and comments.
#[derive(Clone, Debug, PartialEq, Eq)]
pub struct FieldFrame {
    pub field: Field,
    pub entries: Vec<Entry>,
    pub comments: Vec<Comment>,
    pub open: Option<FieldChild>,
}

/// The mathematical shadow of [`FieldFrame`].
#[verifier::ext_equal]
pub struct FieldFrameV {
    pub field: FieldV,
    pub entries: Seq<EntryV>,
    pub comments: Seq<CommentV>,
    pub open: Option<FieldChildV>,
}

impl DeepView for FieldFrame {
    type V = FieldFrameV;

    open spec fn deep_view(&self) -> FieldFrameV {
        FieldFrameV {
            field: self.field.deep_view(),
            entries: self.entries.deep_view(),
            comments: self.comments.deep_view(),
            open: self.open.deep_view(),
        }
    }
}

/// An open `<category>` element with its accumulated fields.
#[derive(Clone, Debug, PartialEq, Eq)]
pub struct CategoryFrame {
    pub category: Category,
    pub fields: Vec<Field>,
    pub open: Option<FieldFrame>,
}

/// The mathematical shadow of [`CategoryFrame`].
#[verifier::ext_equal]
pub struct CategoryFrameV {
    pub category: CategoryV,
    pub fields: Seq<FieldV>,
    pub open: Option<FieldFrameV>,
}

impl DeepView for CategoryFrame {
    type V = CategoryFrameV;

    open spec fn deep_view(&self) -> CategoryFrameV {
        CategoryFrameV {
            category: self.category.deep_view(),
            fields: self.fields.deep_view(),
            open: self.open.deep_view(),
        }
    }
}

/// An open `<form>` element with its accumulated states and categories.
#[derive(Clone, Debug, PartialEq, Eq)]
pub struct FormFrame {
    pub form: Form,
    pub states: Vec<State>,
    pub categories: Vec<Category>,
    pub open: Option<CategoryFrame>,
}

/// The mathematical shadow of [`FormFrame`].
#[verifier::ext_equal]
pub struct FormFrameV {
    pub form: FormV,
    pub states: Seq<StateV>,
    pub categories: Seq<CategoryV>,
    pub open: Option<CategoryFrameV>,
}

impl DeepView for FormFrame {
    type V = FormFrameV;

    open spec fn deep_view(&self) -> FormFrameV {
        FormFrameV {
            form: self.form.deep_view(),
            states: self.states.deep_view(),
            categories: self.categories.deep_view(),
            open: self.open.deep_view(),
        }
    }
}

/// An open `<patient>` element with its accumulated forms.
#[derive(Clone, Debug, PartialEq, Eq)]
pub struct PatientFrame {
    pub patient: Patient,
    pub forms: Vec<Form>,
    pub open: Option<FormFrame>,
}

/// The mathematical shadow of [`PatientFrame`].
#[verifier::ext_equal]
pub struct PatientFrameV {
    pub patient: PatientV,
    pub forms: Seq<FormV>,
    pub open: Option<FormFrameV>,
}

impl DeepView for PatientFrame {
    type V = PatientFrameV;

    open spec fn deep_view(&self) -> PatientFrameV {
        PatientFrameV {
            patient: self.patient.deep_view(),
            forms: self.forms.deep_view(),
            open: self.open.deep_view(),
        }
    }
}

/// The whole parser state: the finished patients, and the chain of currently
/// open frames.
#[derive(Clone, Debug, PartialEq, Eq)]
pub struct ParserState {
    pub patients: Vec<Patient>,
    pub open: Option<PatientFrame>,
}

/// The mathematical shadow of [`ParserState`].
#[verifier::ext_equal]
pub struct ParserStateV {
    pub patients: Seq<PatientV>,
    pub open: Option<PatientFrameV>,
}

impl DeepView for ParserState {
    type V = ParserStateV;

    open spec fn deep_view(&self) -> ParserStateV {
        ParserStateV { patients: self.patients.deep_view(), open: self.open.deep_view() }
    }
}

/// The state before any token: no patients, nothing open.
pub open spec fn spec_initial_state() -> ParserStateV {
    ParserStateV { patients: Seq::empty(), open: None }
}

impl ParserState {
    /// Builds the state before any token.
    pub fn new() -> (r: ParserState)
        ensures
            r.deep_view() == spec_initial_state(),
    {
        let r = ParserState { patients: Vec::new(), open: None };
        proof {
            assert(r.deep_view() =~= spec_initial_state());
        }
        r
    }
}

// ---------------------------------------------------------------------------
// Small verified helpers shared by the close-tag handlers.
// ---------------------------------------------------------------------------

/// An accumulated child list seals to `None` when nothing was parsed, and to
/// the list itself otherwise — never to an empty list.
pub open spec fn spec_seal<T>(s: Seq<T>) -> Option<Seq<T>> {
    if s.len() == 0 {
        None
    } else {
        Some(s)
    }
}

/// Seals an accumulator, as [`spec_seal`] describes.
fn seal<T: DeepView>(v: Vec<T>) -> (r: Option<Vec<T>>)
    ensures
        r.deep_view() == spec_seal(v.deep_view()),
{
    if v.len() == 0 {
        proof {
            assert(v.deep_view().len() == 0);
        }
        None
    } else {
        Some(v)
    }
}

/// Appends to an accumulator, relating the deep views.
fn push_acc<T: DeepView>(v: &mut Vec<T>, x: T)
    ensures
        final (v).deep_view() == old(v).deep_view().push(x.deep_view()),
{
    let ghost pre = v.deep_view();
    let ghost xv = x.deep_view();
    v.push(x);
    proof {
        assert(v.deep_view() =~= pre.push(xv));
    }
}

// ---------------------------------------------------------------------------
// The specification of the state machine: what each token does to the state.
// ---------------------------------------------------------------------------

/// `<patient ...>`: opens a fresh patient frame with an empty form
/// accumulator, replacing whatever was open.
pub open spec fn spec_start_patient(s: ParserStateV, a: Seq<(Seq<char>, Seq<char>)>) -> Result<
    ParserStateV,
    ErrorV,
> {
    match spec_patient_from_attrs(a) {
        Ok(p) => Ok(
            ParserStateV {
                open: Some(PatientFrameV { patient: p, forms: Seq::empty(), open: None }),
                ..s
            },
        ),
        Err(e) => Err(e),
    }
}

/// `<form ...>`: only meaningful while a patient is open; opens a fresh form
/// frame with empty state and category accumulators.
pub open spec fn spec_start_form(s: ParserStateV, a: Seq<(Seq<char>, Seq<char>)>) -> ParserStateV {
    match s.open {
        Some(pf) => ParserStateV {
            open: Some(
                PatientFrameV {
                    open: Some(
                        FormFrameV {
                            form: spec_form_from_attrs(a),
                            states: Seq::empty(),
                            categories: Seq::empty(),
                            open: None,
                        },
                    ),
                    ..pf
                },
            ),
            ..s
        },
        None => s,
    }
}

/// `<category ...>`: only meaningful while a form is open.
pub open spec fn spec_start_category(
    s: ParserStateV,
    a: Seq<(Seq<char>, Seq<char>)>,
) -> ParserStateV {
    match s.open {
        Some(pf) => match pf.open {
            Some(ff) => ParserStateV {
                open: Some(
                    PatientFrameV {
                        open: Some(
                            FormFrameV {
                                open: Some(
                                    CategoryFrameV {
                                        category: spec_category_from_attrs(a),
                                        fields: Seq::empty(),
                                        open: None,
                                    },
                                ),
                                ..ff
                            },
                        ),
                        ..pf
                    },
                ),
                ..s
            },
            None => s,
        },
        None => s,
    }
}

/// `<field ...>`: only meaningful while a category is open; a fatal datetime
/// failure in the attributes aborts the parse.
pub open spec fn spec_start_field(s: ParserStateV, a: Seq<(Seq<char>, Seq<char>)>) -> Result<
    ParserStateV,
    ErrorV,
> {
    match s.open {
        Some(pf) => match pf.open {
            Some(ff) => match ff.open {
                Some(cf) => match spec_field_from_attrs(a) {
                    Ok(f) => Ok(
                        ParserStateV {
                            open: Some(
                                PatientFrameV {
                                    open: Some(
                                        FormFrameV {
                                            open: Some(
                                                CategoryFrameV {
                                                    open: Some(
                                                        FieldFrameV {
                                                            field: f,
                                                            entries: Seq::empty(),
                                                            comments: Seq::empty(),
                                                            open: None,
                                                        },
                                                    ),
                                                    ..cf
                                                },
                                            ),
                                            ..ff
                                        },
                                    ),
                                    ..pf
                                },
                            ),
                            ..s
                        },
                    ),
                    Err(e) => Err(e),
                },
                None => Ok(s),
            },
            None => Ok(s),
        },
        None => Ok(s),
    }
}

/// Rebuilds the state with the open field frame replaced; every deeper
/// handler routes through here.
pub open spec fn spec_with_field_frame(
    s: ParserStateV,
    pf: PatientFrameV,
    ff: FormFrameV,
    cf: CategoryFrameV,
    fdf: FieldFrameV,
) -> ParserStateV {
    ParserStateV {
        open: Some(
            PatientFrameV {
                open: Some(
                    FormFrameV { open: Some(CategoryFrameV { open: Some(fdf), ..cf }), ..ff },
                ),
                ..pf
            },
        ),
        ..s
    }
}

/// `<entry ...>`: only meaningful while a field is open; opens an entry
/// frame, replacing any open entry or comment.
pub open spec fn spec_start_entry(s: ParserStateV, a: Seq<(Seq<char>, Seq<char>)>) -> ParserStateV {
    match s.open {
        Some(pf) => match pf.open {
            Some(ff) => match ff.open {
                Some(cf) => match cf.open {
                    Some(fdf) => spec_with_field_frame(
                        s,
                        pf,
                        ff,
                        cf,
                        FieldFrameV {
                            open: Some(
                                FieldChildV::OpenEntry(
                                    EntryFrameV { entry: spec_entry_from_attrs(a), leaf: None },
                                ),
                            ),
                            ..fdf
                        },
                    ),
                    None => s,
                },
                None => s,
            },
            None => s,
        },
        None => s,
    }
}

/// `<comment ...>`: only meaningful while a field is open; opens a comment
/// frame — the id accepts the `commentId` alias — replacing any open entry
/// or comment.
pub open spec fn spec_start_comment(
    s: ParserStateV,
    a: Seq<(Seq<char>, Seq<char>)>,
) -> ParserStateV {
    match s.open {
        Some(pf) => match pf.open {
            Some(ff) => match ff.open {
                Some(cf) => match cf.open {
                    Some(fdf) => spec_with_field_frame(
                        s,
                        pf,
                        ff,
                        cf,
                        FieldFrameV {
                            open: Some(
                                FieldChildV::OpenComment(
                                    CommentFrameV {
                                        comment: spec_comment_from_attrs(a),
                                        leaf: None,
                                    },
                                ),
                            ),
                            ..fdf
                        },
                    ),
                    None => s,
                },
                None => s,
            },
            None => s,
        },
        None => s,
    }
}

/// Replaces the open leaf of an entry or comment frame.
pub open spec fn spec_child_with_leaf(c: FieldChildV, leaf: Option<LeafFrameV>) -> FieldChildV {
    match c {
        FieldChildV::OpenEntry(ef) => FieldChildV::OpenEntry(EntryFrameV { leaf, ..ef }),
        FieldChildV::OpenComment(cf) => FieldChildV::OpenComment(CommentFrameV { leaf, ..cf }),
    }
}

/// `<value ...>`: only meaningful while an entry or comment is open; opens a
/// value leaf whose body text starts empty. A fatal datetime failure in the
/// attributes aborts the parse.
pub open spec fn spec_start_value(s: ParserStateV, a: Seq<(Seq<char>, Seq<char>)>) -> Result<
    ParserStateV,
    ErrorV,
> {
    match s.open {
        Some(pf) => match pf.open {
            Some(ff) => match ff.open {
                Some(cf) => match cf.open {
                    Some(fdf) => match fdf.open {
                        Some(child) => match spec_value_from_attrs(a) {
                            Ok(v) => Ok(
                                spec_with_field_frame(
                                    s,
                                    pf,
                                    ff,
                                    cf,
                                    FieldFrameV {
                                        open: Some(
                                            spec_child_with_leaf(
                                                child,
                                                Some(LeafFrameV::OpenValue(v)),
                                            ),
                                        ),
                                        ..fdf
                                    },
                                ),
                            ),
                            Err(e) => Err(e),
                        },
                        None => Ok(s),
                    },
                    None => Ok(s),
                },
                None => Ok(s),
            },
            None => Ok(s),
        },
        None => Ok(s),
    }
}

/// `<reason ...>`: only meaningful while an entry is open; opens a reason
/// leaf whose body text starts empty. A fatal datetime failure in the
/// attributes aborts the parse.
pub open spec fn spec_start_reason(s: ParserStateV, a: Seq<(Seq<char>, Seq<char>)>) -> Result<
    ParserStateV,
    ErrorV,
> {
    match s.open {
        Some(pf) => match pf.open {
            Some(ff) => match ff.open {
                Some(cf) => match cf.open {
                    Some(fdf) => match fdf.open {
                        Some(FieldChildV::OpenEntry(ef)) => match spec_reason_from_attrs(a) {
                            Ok(r) => Ok(
                                spec_with_field_frame(
                                    s,
                                    pf,
                                    ff,
                                    cf,
                                    FieldFrameV {
                                        open: Some(
                                            FieldChildV::OpenEntry(
                                                EntryFrameV {
                                                    leaf: Some(LeafFrameV::OpenReason(r)),
                                                    ..ef
                                                },
                                            ),
                                        ),
                                        ..fdf
                                    },
                                ),
                            ),
                            Err(e) => Err(e),
                        },
                        _ => Ok(s),
                    },
                    None => Ok(s),
                },
                None => Ok(s),
            },
            None => Ok(s),
        },
        None => Ok(s),
    }
}

/// Appends body text to an open leaf.
pub open spec fn spec_leaf_append(l: LeafFrameV, text: Seq<char>) -> LeafFrameV {
    match l {
        LeafFrameV::OpenValue(v) => LeafFrameV::OpenValue(ValueV { value: v.value + text, ..v }),
        LeafFrameV::OpenReason(r) => LeafFrameV::OpenReason(ReasonV { value: r.value + text, ..r }),
    }
}

/// A text event: accumulated into the open `<value>`/`<reason>` leaf, if one
/// is open; ignored everywhere else.
pub open spec fn spec_text_token(s: ParserStateV, text: Seq<char>) -> ParserStateV {
    match s.open {
        Some(pf) => match pf.open {
            Some(ff) => match ff.open {
                Some(cf) => match cf.open {
                    Some(fdf) => match fdf.open {
                        Some(child) => {
                            let leaf = match child {
                                FieldChildV::OpenEntry(ef) => ef.leaf,
                                FieldChildV::OpenComment(cf2) => cf2.leaf,
                            };
                            match leaf {
                                Some(l) => spec_with_field_frame(
                                    s,
                                    pf,
                                    ff,
                                    cf,
                                    FieldFrameV {
                                        open: Some(
                                            spec_child_with_leaf(
                                                child,
                                                Some(spec_leaf_append(l, text)),
                                            ),
                                        ),
                                        ..fdf
                                    },
                                ),
                                None => s,
                            }
                        },
                        None => s,
                    },
                    None => s,
                },
                None => s,
            },
            None => s,
        },
        None => s,
    }
}

/// `<state ... />`: only meaningful while a form is open; the finished state
/// is appended to the form's accumulator directly, since a self-closed
/// element carries no children.
pub open spec fn spec_empty_state(s: ParserStateV, a: Seq<(Seq<char>, Seq<char>)>) -> ParserStateV {
    match s.open {
        Some(pf) => match pf.open {
            Some(ff) => ParserStateV {
                open: Some(
                    PatientFrameV {
                        open: Some(FormFrameV { states: ff.states.push(spec_state_from_attrs(a)), ..ff }),
                        ..pf
                    },
                ),
                ..s
            },
            None => s,
        },
        None => s,
    }
}

/// `<value ... />`: only meaningful while an entry is open; attaches a value
/// with an empty body to the entry directly.
pub open spec fn spec_empty_value(s: ParserStateV, a: Seq<(Seq<char>, Seq<char>)>) -> Result<
    ParserStateV,
    ErrorV,
> {
    match s.open {
        Some(pf) => match pf.open {
            Some(ff) => match ff.open {
                Some(cf) => match cf.open {
                    Some(fdf) => match fdf.open {
                        Some(FieldChildV::OpenEntry(ef)) => match spec_value_from_attrs(a) {
                            Ok(v) => Ok(
                                spec_with_field_frame(
                                    s,
                                    pf,
                                    ff,
                                    cf,
                                    FieldFrameV {
                                        open: Some(
                                            FieldChildV::OpenEntry(
                                                EntryFrameV {
                                                    entry: EntryV { value: Some(v), ..ef.entry },
                                                    ..ef
                                                },
                                            ),
                                        ),
                                        ..fdf
                                    },
                                ),
                            ),
                            Err(e) => Err(e),
                        },
                        _ => Ok(s),
                    },
                    None => Ok(s),
                },
                None => Ok(s),
            },
            None => Ok(s),
        },
        None => Ok(s),
    }
}

/// `<reason ... />`: only meaningful while an entry is open; attaches a
/// reason with an empty body to the entry directly.
pub open spec fn spec_empty_reason(s: ParserStateV, a: Seq<(Seq<char>, Seq<char>)>) -> Result<
    ParserStateV,
    ErrorV,
> {
    match s.open {
        Some(pf) => match pf.open {
            Some(ff) => match ff.open {
                Some(cf) => match cf.open {
                    Some(fdf) => match fdf.open {
                        Some(FieldChildV::OpenEntry(ef)) => match spec_reason_from_attrs(a) {
                            Ok(r) => Ok(
                                spec_with_field_frame(
                                    s,
                                    pf,
                                    ff,
                                    cf,
                                    FieldFrameV {
                                        open: Some(
                                            FieldChildV::OpenEntry(
                                                EntryFrameV {
                                                    entry: EntryV { reason: Some(r), ..ef.entry },
                                                    ..ef
                                                },
                                            ),
                                        ),
                                        ..fdf
                                    },
                                ),
                            ),
                            Err(e) => Err(e),
                        },
                        _ => Ok(s),
                    },
                    None => Ok(s),
                },
                None => Ok(s),
            },
            None => Ok(s),
        },
        None => Ok(s),
    }
}

/// `</patient>`: seals the form accumulator onto the patient — `None`, never
/// an empty list, when no form was parsed — appends the finished patient, and
/// discards any unclosed descendants.
pub open spec fn spec_end_patient(s: ParserStateV) -> ParserStateV {
    match s.open {
        Some(pf) => ParserStateV {
            patients: s.patients.push(PatientV { forms: spec_seal(pf.forms), ..pf.patient }),
            open: None,
        },
        None => s,
    }
}

/// `</form>`: seals states and categories onto the form and appends it to the
/// patient's accumulator.
pub open spec fn spec_end_form(s: ParserStateV) -> ParserStateV {
    match s.open {
        Some(pf) => match pf.open {
            Some(ff) => ParserStateV {
                open: Some(
                    PatientFrameV {
                        forms: pf.forms.push(
                            FormV {
                                states: spec_seal(ff.states),
                                categories: spec_seal(ff.categories),
                                ..ff.form
                            },
                        ),
                        open: None,
                        ..pf
                    },
                ),
                ..s
            },
            None => s,
        },
        None => s,
    }
}

/// `</category>`: seals fields onto the category and appends it to the
/// form's accumulator.
pub open spec fn spec_end_category(s: ParserStateV) -> ParserStateV {
    match s.open {
        Some(pf) => match pf.open {
            Some(ff) => match ff.open {
                Some(cf) => ParserStateV {
                    open: Some(
                        PatientFrameV {
                            open: Some(
                                FormFrameV {
                                    categories: ff.categories.push(
                                        CategoryV { fields: spec_seal(cf.fields), ..cf.category },
                                    ),
                                    open: None,
                                    ..ff
                                },
                            ),
                            ..pf
                        },
                    ),
                    ..s
                },
                None => s,
            },
            None => s,
        },
        None => s,
    }
}

/// `</field>`: seals entries and comments onto the field and appends it to
/// the category's accumulator.
pub open spec fn spec_end_field(s: ParserStateV) -> ParserStateV {
    match s.open {
        Some(pf) => match pf.open {
            Some(ff) => match ff.open {
                Some(cf) => match cf.open {
                    Some(fdf) => ParserStateV {
                        open: Some(
                            PatientFrameV {
                                open: Some(
                                    FormFrameV {
                                        open: Some(
                                            CategoryFrameV {
                                                fields: cf.fields.push(
                                                    FieldV {
                                                        entries: spec_seal(fdf.entries),
                                                        comments: spec_seal(fdf.comments),
                                                        ..fdf.field
                                                    },
                                                ),
                                                open: None,
                                                ..cf
                                            },
                                        ),
                                        ..ff
                                    },
                                ),
                                ..pf
                            },
                        ),
                        ..s
                    },
                    None => s,
                },
                None => s,
            },
            None => s,
        },
        None => s,
    }
}

/// `</entry>`: appends the finished entry to the field's accumulator,
/// preserving document order.
pub open spec fn spec_end_entry(s: ParserStateV) -> ParserStateV {
    match s.open {
        Some(pf) => match pf.open {
            Some(ff) => match ff.open {
                Some(cf) => match cf.open {
                    Some(fdf) => match fdf.open {
                        Some(FieldChildV::OpenEntry(ef)) => spec_with_field_frame(
                            s,
                            pf,
                            ff,
                            cf,
                            FieldFrameV { entries: fdf.entries.push(ef.entry), open: None, ..fdf },
                        ),
                        _ => s,
                    },
                    None => s,
                },
                None => s,
            },
            None => s,
        },
        None => s,
    }
}

/// `</comment>`: appends the finished comment to the field's accumulator,
/// preserving document order.
pub open spec fn spec_end_comment(s: ParserStateV) -> ParserStateV {
    match s.open {
        Some(pf) => match pf.open {
            Some(ff) => match ff.open {
                Some(cf) => match cf.open {
                    Some(fdf) => match fdf.open {
                        Some(FieldChildV::OpenComment(cf2)) => spec_with_field_frame(
                            s,
                            pf,
                            ff,
                            cf,
                            FieldFrameV {
                                comments: fdf.comments.push(cf2.comment),
                                open: None,
                                ..fdf
                            },
                        ),
                        _ => s,
                    },
                    None => s,
                },
                None => s,
            },
            None => s,
        },
        None => s,
    }
}

/// `</value>`: hands the finished value, body text included, to whichever of
/// entry or comment is open.
pub open spec fn spec_end_value(s: ParserStateV) -> ParserStateV {
    match s.open {
        Some(pf) => match pf.open {
            Some(ff) => match ff.open {
                Some(cf) => match cf.open {
                    Some(fdf) => match fdf.open {
                        Some(FieldChildV::OpenEntry(ef)) => match ef.leaf {
                            Some(LeafFrameV::OpenValue(v)) => spec_with_field_frame(
                                s,
                                pf,
                                ff,
                                cf,
                                FieldFrameV {
                                    open: Some(
                                        FieldChildV::OpenEntry(
                                            EntryFrameV {
                                                entry: EntryV { value: Some(v), ..ef.entry },
                                                leaf: None,
                                            },
                                        ),
                                    ),
                                    ..fdf
                                },
                            ),
                            _ => s,
                        },
                        Some(FieldChildV::OpenComment(cf2)) => match cf2.leaf {
                            Some(LeafFrameV::OpenValue(v)) => spec_with_field_frame(
                                s,
                                pf,
                                ff,
                                cf,
                                FieldFrameV {
                                    open: Some(
                                        FieldChildV::OpenComment(
                                            CommentFrameV {
                                                comment: CommentV {
                                                    value: Some(v),
                                                    ..cf2.comment
                                                },
                                                leaf: None,
                                            },
                                        ),
                                    ),
                                    ..fdf
                                },
                            ),
                            _ => s,
                        },
                        None => s,
                    },
                    None => s,
                },
                None => s,
            },
            None => s,
        },
        None => s,
    }
}

/// `</reason>`: hands the finished reason, body text included, to the open
/// entry.
pub open spec fn spec_end_reason(s: ParserStateV) -> ParserStateV {
    match s.open {
        Some(pf) => match pf.open {
            Some(ff) => match ff.open {
                Some(cf) => match cf.open {
                    Some(fdf) => match fdf.open {
                        Some(FieldChildV::OpenEntry(ef)) => match ef.leaf {
                            Some(LeafFrameV::OpenReason(r)) => spec_with_field_frame(
                                s,
                                pf,
                                ff,
                                cf,
                                FieldFrameV {
                                    open: Some(
                                        FieldChildV::OpenEntry(
                                            EntryFrameV {
                                                entry: EntryV { reason: Some(r), ..ef.entry },
                                                leaf: None,
                                            },
                                        ),
                                    ),
                                    ..fdf
                                },
                            ),
                            _ => s,
                        },
                        _ => s,
                    },
                    None => s,
                },
                None => s,
            },
            None => s,
        },
        None => s,
    }
}

/// The dispatch for an opening tag: the eight element names of the dialect,
/// each only in its expected ancestor context; every other name is ignored.
pub open spec fn spec_start_tag(
    s: ParserStateV,
    name: Seq<char>,
    a: Seq<(Seq<char>, Seq<char>)>,
) -> Result<ParserStateV, ErrorV> {
    if name == "patient"@ {
        spec_start_patient(s, a)
    } else if name == "form"@ {
        Ok(spec_start_form(s, a))
    } else if name == "category"@ {
        Ok(spec_start_category(s, a))
    } else if name == "field"@ {
        spec_start_field(s, a)
    } else if name == "entry"@ {
        Ok(spec_start_entry(s, a))
    } else if name == "comment"@ {
        Ok(spec_start_comment(s, a))
    } else if name == "value"@ {
        spec_start_value(s, a)
    } else if name == "reason"@ {
        spec_start_reason(s, a)
    } else {
        Ok(s)
    }
}

/// The dispatch for a self-closed tag: `state`, `value` and `reason` carry no
/// children and are attached directly; every other name is ignored.
pub open spec fn spec_empty_tag(
    s: ParserStateV,
    name: Seq<char>,
    a: Seq<(Seq<char>, Seq<char>)>,
) -> Result<ParserStateV, ErrorV> {
    if name == "state"@ {
        Ok(spec_empty_state(s, a))
    } else if name == "value"@ {
        spec_empty_value(s, a)
    } else if name == "reason"@ {
        spec_empty_reason(s, a)
    } else {
        Ok(s)
    }
}

/// The dispatch for a closing tag; a close never fails.
pub open spec fn spec_end_tag(s: ParserStateV, name: Seq<char>) -> ParserStateV {
    if name == "patient"@ {
        spec_end_patient(s)
    } else if name == "form"@ {
        spec_end_form(s)
    } else if name == "category"@ {
        spec_end_category(s)
    } else if name == "field"@ {
        spec_end_field(s)
    } else if name == "entry"@ {
        spec_end_entry(s)
    } else if name == "comment"@ {
        spec_end_comment(s)
    } else if name == "value"@ {
        spec_end_value(s)
    } else if name == "reason"@ {
        spec_end_reason(s)
    } else {
        s
    }
}

/// One step of the state machine: what a single token does to the state.
pub open spec fn spec_step(s: ParserStateV, t: TokenV) -> Result<ParserStateV, ErrorV> {
    match t {
        TokenV::Start { name, attrs } => spec_start_tag(s, name, attrs),
        TokenV::Empty { name, attrs } => spec_empty_tag(s, name, attrs),
        TokenV::End { name } => Ok(spec_end_tag(s, name)),
        TokenV::Text { text } => Ok(spec_text_token(s, text)),
        TokenV::Eof => Ok(s),
        TokenV::Other => Ok(s),
    }
}

// ---------------------------------------------------------------------------
// The executable state machine, one handler per spec handler.
// ---------------------------------------------------------------------------

/// Builds an empty accumulator.
fn empty_vec<T: DeepView>() -> (r: Vec<T>)
    ensures
        r.deep_view() == Seq::<T::V>::empty(),
{
    let v: Vec<T> = Vec::new();
    proof {
        assert(v.deep_view() =~= Seq::<T::V>::empty());
    }
    v
}

fn start_patient(st: ParserState, attrs: &Vec<(String, String)>) -> (r: Result<ParserState, Error>)
    ensures
        match r {
            Ok(s2) => spec_start_patient(st.deep_view(), attrs.deep_view()) == Ok::<_, ErrorV>(
                s2.deep_view(),
            ),
            Err(e) => spec_start_patient(st.deep_view(), attrs.deep_view()) == Err::<
                ParserStateV,
                _,
            >(e.deep_view()),
        },
{
    let ParserState { patients, open: _ } = st;
    let p = match Patient::from_attributes(attrs) {
        Ok(p) => p,
        Err(e) => {
            return Err(e);
        },
    };
    Ok(
        ParserState {
            patients,
            open: Some(PatientFrame { patient: p, forms: empty_vec(), open: None }),
        },
    )
}

fn start_form(st: ParserState, attrs: &Vec<(String, String)>) -> (r: ParserState)
    ensures
        r.deep_view() == spec_start_form(st.deep_view(), attrs.deep_view()),
{
    let ParserState { patients, open } = st;
    let pf = match open {
        Some(pf) => pf,
        None => {
            return ParserState { patients, open: None };
        },
    };
    let form = match Form::from_attributes(attrs) {
        Ok(f) => f,
        Err(_) => {
            proof {
                assert(false);
            }
            return ParserState { patients, open: None };
        },
    };
    state_with_form(patients, pf, form)
}

/// Replaces the open form frame of `pf` with a fresh one for `form`.
fn state_with_form(patients: Vec<Patient>, pf: PatientFrame, form: Form) -> (r: ParserState)
    ensures
        r.deep_view() == (ParserStateV {
            patients: patients.deep_view(),
            open: Some(
                PatientFrameV {
                    open: Some(
                        FormFrameV {
                            form: form.deep_view(),
                            states: Seq::empty(),
                            categories: Seq::empty(),
                            open: None,
                        },
                    ),
                    ..pf.deep_view()
                },
            ),
        }),
{
    let PatientFrame { patient, forms, open: _ } = pf;
    ParserState {
        patients,
        open: Some(
            PatientFrame {
                patient,
                forms,
                open: Some(
                    FormFrame {
                        form,
                        states: empty_vec(),
                        categories: empty_vec(),
                        open: None,
                    },
                ),
            },
        ),
    }
}

fn start_category(st: ParserState, attrs: &Vec<(String, String)>) -> (r: ParserState)
    ensures
        r.deep_view() == spec_start_category(st.deep_view(), attrs.deep_view()),
{
    let ParserState { patients, open } = st;
    let pf = match open {
        Some(pf) => pf,
        None => {
            return ParserState { patients, open: None };
        },
    };
    let PatientFrame { patient, forms, open: fopen } = pf;
    let ff = match fopen {
        Some(ff) => ff,
        None => {
            return ParserState {
                patients,
                open: Some(PatientFrame { patient, forms, open: None }),
            };
        },
    };
    let FormFrame { form, states, categories, open: _ } = ff;
    let category = match Category::from_attributes(attrs) {
        Ok(c) => c,
        Err(_) => {
            proof {
                assert(false);
            }
            return ParserState { patients, open: None };
        },
    };
    ParserState {
        patients,
        open: Some(
            PatientFrame {
                patient,
                forms,
                open: Some(
                    FormFrame {
                        form,
                        states,
                        categories,
                        open: Some(
                            CategoryFrame { category, fields: empty_vec(), open: None },
                        ),
                    },
                ),
            },
        ),
    }
}

fn start_field(st: ParserState, attrs: &Vec<(String, String)>) -> (r: Result<ParserState, Error>)
    ensures
        match r {
            Ok(s2) => spec_start_field(st.deep_view(), attrs.deep_view()) == Ok::<_, ErrorV>(
                s2.deep_view(),
            ),
            Err(e) => spec_start_field(st.deep_view(), attrs.deep_view()) == Err::<
                ParserStateV,
                _,
            >(e.deep_view()),
        },
{
    let ParserState { patients, open } = st;
    let pf = match open {
        Some(pf) => pf,
        None => {
            return Ok(ParserState { patients, open: None });
        },
    };
    let PatientFrame { patient, forms, open: fopen } = pf;
    let ff = match fopen {
        Some(ff) => ff,
        None => {
            return Ok(
                ParserState { patients, open: Some(PatientFrame { patient, forms, open: None }) },
            );
        },
    };
    let FormFrame { form, states, categories, open: copen } = ff;
    let cf = match copen {
        Some(cf) => cf,
        None => {
            return Ok(
                ParserState {
                    patients,
                    open: Some(
                        PatientFrame {
                            patient,
                            forms,
                            open: Some(FormFrame { form, states, categories, open: None }),
                        },
                    ),
                },
            );
        },
    };
    let CategoryFrame { category, fields, open: _ } = cf;
    let field = match Field::from_attributes(attrs) {
        Ok(f) => f,
        Err(e) => {
            return Err(e);
        },
    };
    Ok(
        ParserState {
            patients,
            open: Some(
                PatientFrame {
                    patient,
                    forms,
                    open: Some(
                        FormFrame {
                            form,
                            states,
                            categories,
                            open: Some(
                                CategoryFrame {
                                    category,
                                    fields,
                                    open: Some(
                                        FieldFrame {
                                            field,
                                            entries: empty_vec(),
                                            comments: empty_vec(),
                                            open: None,
                                        },
                                    ),
                                },
                            ),
                        },
                    ),
                },
            ),
        },
    )
}

fn start_entry(st: ParserState, attrs: &Vec<(String, String)>) -> (r: ParserState)
    ensures
        r.deep_view() == spec_start_entry(st.deep_view(), attrs.deep_view()),
{
    let ParserState { patients, open } = st;
    let pf = match open {
        Some(pf) => pf,
        None => {
            return ParserState { patients, open: None };
        },
    };
    let PatientFrame { patient, forms, open: fopen } = pf;
    let ff = match fopen {
        Some(ff) => ff,
        None => {
            return ParserState {
                patients,
                open: Some(PatientFrame { patient, forms, open: None }),
            };
        },
    };
    let FormFrame { form, states, categories, open: copen } = ff;
    let cf = match copen {
        Some(cf) => cf,
        None => {
            return ParserState {
                patients,
                open: Some(
                    PatientFrame {
                        patient,
                        forms,
                        open: Some(FormFrame { form, states, categories, open: None }),
                    },
                ),
            };
        },
    };
    let CategoryFrame { category, fields, open: dopen } = cf;
    let fdf = match dopen {
        Some(fdf) => fdf,
        None => {
            return ParserState {
                patients,
                open: Some(
                    PatientFrame {
                        patient,
                        forms,
                        open: Some(
                            FormFrame {
                                form,
                                states,
                                categories,
                                open: Some(CategoryFrame { category, fields, open: None }),
                            },
                        ),
                    },
                ),
            };
        },
    };
    let FieldFrame { field, entries, comments, open: _ } = fdf;
    let entry = match Entry::from_attributes(attrs) {
        Ok(en) => en,
        Err(_) => {
            proof {
                assert(false);
            }
            return ParserState { patients, open: None };
        },
    };
    ParserState {
        patients,
        open: Some(
            PatientFrame {
                patient,
                forms,
                open: Some(
                    FormFrame {
                        form,
                        states,
                        categories,
                        open: Some(
                            CategoryFrame {
                                category,
                                fields,
                                open: Some(
                                    FieldFrame {
                                        field,
                                        entries,
                                        comments,
                                        open: Some(
                                            FieldChild::OpenEntry(
                                                EntryFrame { entry, leaf: None },
                                            ),
                                        ),
                                    },
                                ),
                            },
                        ),
                    },
                ),
            },
        ),
    }
}

fn start_comment(st: ParserState, attrs: &Vec<(String, String)>) -> (r: ParserState)
    ensures
        r.deep_view() == spec_start_comment(st.deep_view(), attrs.deep_view()),
{
    let ParserState { patients, open } = st;
    let pf = match open {
        Some(pf) => pf,
        None => {
            return ParserState { patients, open: None };
        },
    };
    let PatientFrame { patient, forms, open: fopen } = pf;
    let ff = match fopen {
        Some(ff) => ff,
        None => {
            return ParserState {
                patients,
                open: Some(PatientFrame { patient, forms, open: None }),
            };
        },
    };
    let FormFrame { form, states, categories, open: copen } = ff;
    let cf = match copen {
        Some(cf) => cf,
        None => {
            return ParserState {
                patients,
                open: Some(
                    PatientFrame {
                        patient,
                        forms,
                        open: Some(FormFrame { form, states, categories, open: None }),
                    },
                ),
            };
        },
    };
    let CategoryFrame { category, fields, open: dopen } = cf;
    let fdf = match dopen {
        Some(fdf) => fdf,
        None => {
            return ParserState {
                patients,
                open: Some(
                    PatientFrame {
                        patient,
                        forms,
                        open: Some(
                            FormFrame {
                                form,
                                states,
                                categories,
                                open: Some(CategoryFrame { category, fields, open: None }),
                            },
                        ),
                    },
                ),
            };
        },
    };
    let FieldFrame { field, entries, comments, open: _ } = fdf;
    let comment = match Comment::from_attributes(attrs) {
        Ok(c) => c,
        Err(_) => {
            proof {
                assert(false);
            }
            return ParserState { patients, open: None };
        },
    };
    ParserState {
        patients,
        open: Some(
            PatientFrame {
                patient,
                forms,
                open: Some(
                    FormFrame {
                        form,
                        states,
                        categories,
                        open: Some(
                            CategoryFrame {
                                category,
                                fields,
                                open: Some(
                                    FieldFrame {
                                        field,
                                        entries,
                                        comments,
                                        open: Some(
                                            FieldChild::OpenComment(
                                                CommentFrame { comment, leaf: None },
                                            ),
                                        ),
                                    },
                                ),
                            },
                        ),
                    },
                ),
            },
        ),
    }
}

fn start_value(st: ParserState, attrs: &Vec<(String, String)>) -> (r: Result<ParserState, Error>)
    ensures
        match r {
            Ok(s2) => spec_start_value(st.deep_view(), attrs.deep_view()) == Ok::<_, ErrorV>(
                s2.deep_view(),
            ),
            Err(e) => spec_start_value(st.deep_view(), attrs.deep_view()) == Err::<
                ParserStateV,
                _,
            >(e.deep_view()),
        },
{
    let ParserState { patients, open } = st;
    let pf = match open {
        Some(pf) => pf,
        None => {
            return Ok(ParserState { patients, open: None });
        },
    };
    let PatientFrame { patient, forms, open: fopen } = pf;
    let ff = match fopen {
        Some(ff) => ff,
        None => {
            return Ok(
                ParserState { patients, open: Some(PatientFrame { patient, forms, open: None }) },
            );
        },
    };
    let FormFrame { form, states, categories, open: copen } = ff;
    let cf = match copen {
        Some(cf) => cf,
        None => {
            return Ok(
                ParserState {
                    patients,
                    open: Some(
                        PatientFrame {
                            patient,
                            forms,
                            open: Some(FormFrame { form, states, categories, open: None }),
                        },
                    ),
                },
            );
        },
    };
    let CategoryFrame { category, fields, open: dopen } = cf;
    let fdf = match dopen {
        Some(fdf) => fdf,
        None => {
            return Ok(
                ParserState {
                    patients,
                    open: Some(
                        PatientFrame {
                            patient,
                            forms,
                            open: Some(
                                FormFrame {
                                    form,
                                    states,
                                    categories,
                                    open: Some(CategoryFrame { category, fields, open: None }),
                                },
                            ),
                        },
                    ),
                },
            );
        },
    };
    let FieldFrame { field, entries, comments, open: chopen } = fdf;
    let child = match chopen {
        Some(c) => c,
        None => {
            return Ok(
                ParserState {
                    patients,
                    open: Some(
                        PatientFrame {
                            patient,
                            forms,
                            open: Some(
                                FormFrame {
                                    form,
                                    states,
                                    categories,
                                    open: Some(
                                        CategoryFrame {
                                            category,
                                            fields,
                                            open: Some(
                                                FieldFrame {
                                                    field,
                                                    entries,
                                                    comments,
                                                    open: None,
                                                },
                                            ),
                                        },
                                    ),
                                },
                            ),
                        },
                    ),
                },
            );
        },
    };
    let v = match Value::from_attributes(attrs) {
        Ok(v) => v,
        Err(e) => {
            return Err(e);
        },
    };
    let child2 = match child {
        FieldChild::OpenEntry(ef) => {
            let EntryFrame { entry, leaf: _ } = ef;
            FieldChild::OpenEntry(EntryFrame { entry, leaf: Some(LeafFrame::OpenValue(v)) })
        },
        FieldChild::OpenComment(cfr) => {
            let CommentFrame { comment, leaf: _ } = cfr;
            FieldChild::OpenComment(CommentFrame { comment, leaf: Some(LeafFrame::OpenValue(v)) })
        },
    };
    Ok(
        ParserState {
            patients,
            open: Some(
                PatientFrame {
                    patient,
                    forms,
                    open: Some(
                        FormFrame {
                            form,
                            states,
                            categories,
                            open: Some(
                                CategoryFrame {
                                    category,
                                    fields,
                                    open: Some(
                                        FieldFrame {
                                            field,
                                            entries,
                                            comments,
                                            open: Some(child2),
                                        },
                                    ),
                                },
                            ),
                        },
                    ),
                },
            ),
        },
    )
}

fn start_reason(st: ParserState, attrs: &Vec<(String, String)>) -> (r: Result<ParserState, Error>)
    ensures
        match r {
            Ok(s2) => spec_start_reason(st.deep_view(), attrs.deep_view()) == Ok::<_, ErrorV>(
                s2.deep_view(),
            ),
            Err(e) => spec_start_reason(st.deep_view(), attrs.deep_view()) == Err::<
                ParserStateV,
                _,
            >(e.deep_view()),
        },
{
    let ParserState { patients, open } = st;
    let pf = match open {
        Some(pf) => pf,
        None => {
            return Ok(ParserState { patients, open: None });
        },
    };
    let PatientFrame { patient, forms, open: fopen } = pf;
    let ff = match fopen {
        Some(ff) => ff,
        None => {
            return Ok(
                ParserState { patients, open: Some(PatientFrame { patient, forms, open: None }) },
            );
        },
    };
    let FormFrame { form, states, categories, open: copen } = ff;
    let cf = match copen {
        Some(cf) => cf,
        None => {
            return Ok(
                ParserState {
                    patients,
                    open: Some(
                        PatientFrame {
                            patient,
                            forms,
                            open: Some(FormFrame { form, states, categories, open: None }),
                        },
                    ),
                },
            );
        },
    };
    let CategoryFrame { category, fields, open: dopen } = cf;
    let fdf = match dopen {
        Some(fdf) => fdf,
        None => {
            return Ok(
                ParserState {
                    patients,
                    open: Some(
                        PatientFrame {
                            patient,
                            forms,
                            open: Some(
                                FormFrame {
                                    form,
                                    states,
                                    categories,
                                    open: Some(CategoryFrame { category, fields, open: None }),
                                },
                            ),
                        },
                    ),
                },
            );
        },
    };
    let FieldFrame { field, entries, comments, open: chopen } = fdf;
    match chopen {
        Some(FieldChild::OpenEntry(ef)) => {
            let rr = match Reason::from_attributes(attrs) {
                Ok(rr) => rr,
                Err(e) => {
                    return Err(e);
                },
            };
            let EntryFrame { entry, leaf: _ } = ef;
            Ok(
                ParserState {
                    patients,
                    open: Some(
                        PatientFrame {
                            patient,
                            forms,
                            open: Some(
                                FormFrame {
                                    form,
                                    states,
                                    categories,
                                    open: Some(
                                        CategoryFrame {
                                            category,
                                            fields,
                                            open: Some(
                                                FieldFrame {
                                                    field,
                                                    entries,
                                                    comments,
                                                    open: Some(
                                                        FieldChild::OpenEntry(
                                                            EntryFrame {
                                                                entry,
                                                                leaf: Some(
                                                                    LeafFrame::OpenReason(rr),
                                                                ),
                                                            },
                                                        ),
                                                    ),
                                                },
                                            ),
                                        },
                                    ),
                                },
                            ),
                        },
                    ),
                },
            )
        },
        other => Ok(
            ParserState {
                patients,
                open: Some(
                    PatientFrame {
                        patient,
                        forms,
                        open: Some(
                            FormFrame {
                                form,
                                states,
                                categories,
                                open: Some(
                                    CategoryFrame {
                                        category,
                                        fields,
                                        open: Some(
                                            FieldFrame {
                                                field,
                                                entries,
                                                comments,
                                                open: other,
                                            },
                                        ),
                                    },
                                ),
                            },
                        ),
                    },
                ),
            },
        ),
    }
}

fn text_token(st: ParserState, text: &String) -> (r: ParserState)
    ensures
        r.deep_view() == spec_text_token(st.deep_view(), text.deep_view()),
{
    let ParserState { patients, open } = st;
    let pf = match open {
        Some(pf) => pf,
        None => {
            return ParserState { patients, open: None };
        },
    };
    let PatientFrame { patient, forms, open: fopen } = pf;
    let ff = match fopen {
        Some(ff) => ff,
        None => {
            return ParserState {
                patients,
                open: Some(PatientFrame { patient, forms, open: None }),
            };
        },
    };
    let FormFrame { form, states, categories, open: copen } = ff;
    let cf = match copen {
        Some(cf) => cf,
        None => {
            return ParserState {
                patients,
                open: Some(
                    PatientFrame {
                        patient,
                        forms,
                        open: Some(FormFrame { form, states, categories, open: None }),
                    },
                ),
            };
        },
    };
    let CategoryFrame { category, fields, open: dopen } = cf;
    let fdf = match dopen {
        Some(fdf) => fdf,
        None => {
            return ParserState {
                patients,
                open: Some(
                    PatientFrame {
                        patient,
                        forms,
                        open: Some(
                            FormFrame {
                                form,
                                states,
                                categories,
                                open: Some(CategoryFrame { category, fields, open: None }),
                            },
                        ),
                    },
                ),
            };
        },
    };
    let FieldFrame { field, entries, comments, open: chopen } = fdf;
    let child2 = match chopen {
        Some(FieldChild::OpenEntry(ef)) => {
            let EntryFrame { entry, leaf } = ef;
            let leaf2 = append_leaf(leaf, text);
            Some(FieldChild::OpenEntry(EntryFrame { entry, leaf: leaf2 }))
        },
        Some(FieldChild::OpenComment(cfr)) => {
            let CommentFrame { comment, leaf } = cfr;
            let leaf2 = append_leaf(leaf, text);
            Some(FieldChild::OpenComment(CommentFrame { comment, leaf: leaf2 }))
        },
        None => None,
    };
    ParserState {
        patients,
        open: Some(
            PatientFrame {
                patient,
                forms,
                open: Some(
                    FormFrame {
                        form,
                        states,
                        categories,
                        open: Some(
                            CategoryFrame {
                                category,
                                fields,
                                open: Some(
                                    FieldFrame { field, entries, comments, open: child2 },
                                ),
                            },
                        ),
                    },
                ),
            },
        ),
    }
}

/// Appends body text to the open leaf, if any.
fn append_leaf(leaf: Option<LeafFrame>, text: &String) -> (r: Option<LeafFrame>)
    ensures
        r.deep_view() == match leaf.deep_view() {
            Some(l) => Some(spec_leaf_append(l, text.deep_view())),
            None => None,
        },
{
    match leaf {
        Some(LeafFrame::OpenValue(mut v)) => {
            v.value.append(text.as_str());
            Some(LeafFrame::OpenValue(v))
        },
        Some(LeafFrame::OpenReason(mut rr)) => {
            rr.value.append(text.as_str());
            Some(LeafFrame::OpenReason(rr))
        },
        None => None,
    }
}

fn empty_state(st: ParserState, attrs: &Vec<(String, String)>) -> (r: ParserState)
    ensures
        r.deep_view() == spec_empty_state(st.deep_view(), attrs.deep_view()),
{
    let ParserState { patients, open } = st;
    let pf = match open {
        Some(pf) => pf,
        None => {
            return ParserState { patients, open: None };
        },
    };
    let PatientFrame { patient, forms, open: fopen } = pf;
    let ff = match fopen {
        Some(ff) => ff,
        None => {
            return ParserState {
                patients,
                open: Some(PatientFrame { patient, forms, open: None }),
            };
        },
    };
    let FormFrame { form, mut states, categories, open: copen } = ff;
    let state = match State::from_attributes(attrs) {
        Ok(s2) => s2,
        Err(_) => {
            proof {
                assert(false);
            }
            return ParserState { patients, open: None };
        },
    };
    push_acc(&mut states, state);
    ParserState {
        patients,
        open: Some(
            PatientFrame {
                patient,
                forms,
                open: Some(FormFrame { form, states, categories, open: copen }),
            },
        ),
    }
}

fn empty_value(st: ParserState, attrs: &Vec<(String, String)>) -> (r: Result<ParserState, Error>)
    ensures
        match r {
            Ok(s2) => spec_empty_value(st.deep_view(), attrs.deep_view()) == Ok::<_, ErrorV>(
                s2.deep_view(),
            ),
            Err(e) => spec_empty_value(st.deep_view(), attrs.deep_view()) == Err::<
                ParserStateV,
                _,
            >(e.deep_view()),
        },
{
    let ParserState { patients, open } = st;
    let pf = match open {
        Some(pf) => pf,
        None => {
            return Ok(ParserState { patients, open: None });
        },
    };
    let PatientFrame { patient, forms, open: fopen } = pf;
    let ff = match fopen {
        Some(ff) => ff,
        None => {
            return Ok(
                ParserState { patients, open: Some(PatientFrame { patient, forms, open: None }) },
            );
        },
    };
    let FormFrame { form, states, categories, open: copen } = ff;
    let cf = match copen {
        Some(cf) => cf,
        None => {
            return Ok(
                ParserState {
                    patients,
                    open: Some(
                        PatientFrame {
                            patient,
                            forms,
                            open: Some(FormFrame { form, states, categories, open: None }),
                        },
                    ),
                },
            );
        },
    };
    let CategoryFrame { category, fields, open: dopen } = cf;
    let fdf = match dopen {
        Some(fdf) => fdf,
        None => {
            return Ok(
                ParserState {
                    patients,
                    open: Some(
                        PatientFrame {
                            patient,
                            forms,
                            open: Some(
                                FormFrame {
                                    form,
                                    states,
                                    categories,
                                    open: Some(CategoryFrame { category, fields, open: None }),
                                },
                            ),
                        },
                    ),
                },
            );
        },
    };
    let FieldFrame { field, entries, comments, open: chopen } = fdf;
    let child2 = match chopen {
        Some(FieldChild::OpenEntry(ef)) => {
            let v = match Value::from_attributes(attrs) {
                Ok(v) => v,
                Err(e) => {
                    return Err(e);
                },
            };
            let EntryFrame { entry, leaf } = ef;
            Some(
                FieldChild::OpenEntry(
                    EntryFrame { entry: Entry { value: Some(v), ..entry }, leaf },
                ),
            )
        },
        other => other,
    };
    Ok(
        ParserState {
            patients,
            open: Some(
                PatientFrame {
                    patient,
                    forms,
                    open: Some(
                        FormFrame {
                            form,
                            states,
                            categories,
                            open: Some(
                                CategoryFrame {
                                    category,
                                    fields,
                                    open: Some(
                                        FieldFrame { field, entries, comments, open: child2 },
                                    ),
                                },
                            ),
                        },
                    ),
                },
            ),
        },
    )
}

fn empty_reason(st: ParserState, attrs: &Vec<(String, String)>) -> (r: Result<ParserState, Error>)
    ensures
        match r {
            Ok(s2) => spec_empty_reason(st.deep_view(), attrs.deep_view()) == Ok::<_, ErrorV>(
                s2.deep_view(),
            ),
            Err(e) => spec_empty_reason(st.deep_view(), attrs.deep_view()) == Err::<
                ParserStateV,
                _,
            >(e.deep_view()),
        },
{
    let ParserState { patients, open } = st;
    let pf = match open {
        Some(pf) => pf,
        None => {
            return Ok(ParserState { patients, open: None });
        },
    };
    let PatientFrame { patient, forms, open: fopen } = pf;
    let ff = match fopen {
        Some(ff) => ff,
        None => {
            return Ok(
                ParserState { patients, open: Some(PatientFrame { patient, forms, open: None }) },
            );
        },
    };
    let FormFrame { form, states, categories, open: copen } = ff;
    let cf = match copen {
        Some(cf) => cf,
        None => {
            return Ok(
                ParserState {
                    patients,
                    open: Some(
                        PatientFrame {
                            patient,
                            forms,
                            open: Some(FormFrame { form, states, categories, open: None }),
                        },
                    ),
                },
            );
        },
    };
    let CategoryFrame { category, fields, open: dopen } = cf;
    let fdf = match dopen {
        Some(fdf) => fdf,
        None => {
            return Ok(
                ParserState {
                    patients,
                    open: Some(
                        PatientFrame {
                            patient,
                            forms,
                            open: Some(
                                FormFrame {
                                    form,
                                    states,
                                    categories,
                                    open: Some(CategoryFrame { category, fields, open: None }),
                                },
                            ),
                        },
                    ),
                },
            );
        },
    };
    let FieldFrame { field, entries, comments, open: chopen } = fdf;
    let child2 = match chopen {
        Some(FieldChild::OpenEntry(ef)) => {
            let rr = match Reason::from_attributes(attrs) {
                Ok(rr) => rr,
                Err(e) => {
                    return Err(e);
                },
            };
            let EntryFrame { entry, leaf } = ef;
            Some(
                FieldChild::OpenEntry(
                    EntryFrame { entry: Entry { reason: Some(rr), ..entry }, leaf },
                ),
            )
        },
        other => other,
    };
    Ok(
        ParserState {
            patients,
            open: Some(
                PatientFrame {
                    patient,
                    forms,
                    open: Some(
                        FormFrame {
                            form,
                            states,
                            categories,
                            open: Some(
                                CategoryFrame {
                                    category,
                                    fields,
                                    open: Some(
                                        FieldFrame { field, entries, comments, open: child2 },
                                    ),
                                },
                            ),
                        },
                    ),
                },
            ),
        },
    )
}

fn end_patient(st: ParserState) -> (r: ParserState)
    ensures
        r.deep_view() == spec_end_patient(st.deep_view()),
{
    let ParserState { mut patients, open } = st;
    match open {
        Some(pf) => {
            let PatientFrame { patient, forms, open: _ } = pf;
            let sealed = seal(forms);
            push_acc(&mut patients, Patient { forms: sealed, ..patient });
            ParserState { patients, open: None }
        },
        None => ParserState { patients, open: None },
    }
}

fn end_form(st: ParserState) -> (r: ParserState)
    ensures
        r.deep_view() == spec_end_form(st.deep_view()),
{
    let ParserState { patients, open } = st;
    let pf = match open {
        Some(pf) => pf,
        None => {
            return ParserState { patients, open: None };
        },
    };
    let PatientFrame { patient, mut forms, open: fopen } = pf;
    match fopen {
        Some(ff) => {
            let FormFrame { form, states, categories, open: _ } = ff;
            let form2 = Form { states: seal(states), categories: seal(categories), ..form };
            push_acc(&mut forms, form2);
            ParserState { patients, open: Some(PatientFrame { patient, forms, open: None }) }
        },
        None => ParserState { patients, open: Some(PatientFrame { patient, forms, open: None }) },
    }
}

fn end_category(st: ParserState) -> (r: ParserState)
    ensures
        r.deep_view() == spec_end_category(st.deep_view()),
{
    let ParserState { patients, open } = st;
    let pf = match open {
        Some(pf) => pf,
        None => {
            return ParserState { patients, open: None };
        },
    };
    let PatientFrame { patient, forms, open: fopen } = pf;
    let ff = match fopen {
        Some(ff) => ff,
        None => {
            return ParserState {
                patients,
                open: Some(PatientFrame { patient, forms, open: None }),
            };
        },
    };
    let FormFrame { form, states, mut categories, open: copen } = ff;
    match copen {
        Some(cf) => {
            let CategoryFrame { category, fields, open: _ } = cf;
            let category2 = Category { fields: seal(fields), ..category };
            push_acc(&mut categories, category2);
            ParserState {
                patients,
                open: Some(
                    PatientFrame {
                        patient,
                        forms,
                        open: Some(FormFrame { form, states, categories, open: None }),
                    },
                ),
            }
        },
        None => ParserState {
            patients,
            open: Some(
                PatientFrame {
                    patient,
                    forms,
                    open: Some(FormFrame { form, states, categories, open: None }),
                },
            ),
        },
    }
}

fn end_field(st: ParserState) -> (r: ParserState)
    ensures
        r.deep_view() == spec_end_field(st.deep_view()),
{
    let ParserState { patients, open } = st;
    let pf = match open {
        Some(pf) => pf,
        None => {
            return ParserState { patients, open: None };
        },
    };
    let PatientFrame { patient, forms, open: fopen } = pf;
    let ff = match fopen {
        Some(ff) => ff,
        None => {
            return ParserState {
                patients,
                open: Some(PatientFrame { patient, forms, open: None }),
            };
        },
    };
    let FormFrame { form, states, categories, open: copen } = ff;
    let cf = match copen {
        Some(cf) => cf,
        None => {
            return ParserState {
                patients,
                open: Some(
                    PatientFrame {
                        patient,
                        forms,
                        open: Some(FormFrame { form, states, categories, open: None }),
                    },
                ),
            };
        },
    };
    let CategoryFrame { category, mut fields, open: dopen } = cf;
    match dopen {
        Some(fdf) => {
            let FieldFrame { field, entries, comments, open: _ } = fdf;
            let field2 = Field { entries: seal(entries), comments: seal(comments), ..field };
            push_acc(&mut fields, field2);
            ParserState {
                patients,
                open: Some(
                    PatientFrame {
                        patient,
                        forms,
                        open: Some(
                            FormFrame {
                                form,
                                states,
                                categories,
                                open: Some(CategoryFrame { category, fields, open: None }),
                            },
                        ),
                    },
                ),
            }
        },
        None => ParserState {
            patients,
            open: Some(
                PatientFrame {
                    patient,
                    forms,
                    open: Some(
                        FormFrame {
                            form,
                            states,
                            categories,
                            open: Some(CategoryFrame { category, fields, open: None }),
                        },
                    ),
                },
            ),
        },
    }
}

fn end_entry(st: ParserState) -> (r: ParserState)
    ensures
        r.deep_view() == spec_end_entry(st.deep_view()),
{
    let ParserState { patients, open } = st;
    let pf = match open {
        Some(pf) => pf,
        None => {
            return ParserState { patients, open: None };
        },
    };
    let PatientFrame { patient, forms, open: fopen } = pf;
    let ff = match fopen {
        Some(ff) => ff,
        None => {
            return ParserState {
                patients,
                open: Some(PatientFrame { patient, forms, open: None }),
            };
        },
    };
    let FormFrame { form, states, categories, open: copen } = ff;
    let cf = match copen {
        Some(cf) => cf,
        None => {
            return ParserState {
                patients,
                open: Some(
                    PatientFrame {
                        patient,
                        forms,
                        open: Some(FormFrame { form, states, categories, open: None }),
                    },
                ),
            };
        },
    };
    let CategoryFrame { category, fields, open: dopen } = cf;
    let fdf = match dopen {
        Some(fdf) => fdf,
        None => {
            return ParserState {
                patients,
                open: Some(
                    PatientFrame {
                        patient,
                        forms,
                        open: Some(
                            FormFrame {
                                form,
                                states,
                                categories,
                                open: Some(CategoryFrame { category, fields, open: None }),
                            },
                        ),
                    },
                ),
            };
        },
    };
    let FieldFrame { field, mut entries, comments, open: chopen } = fdf;
    let child2 = match chopen {
        Some(FieldChild::OpenEntry(ef)) => {
            let EntryFrame { entry, leaf: _ } = ef;
            push_acc(&mut entries, entry);
            None
        },
        other => other,
    };
    ParserState {
        patients,
        open: Some(
            PatientFrame {
                patient,
                forms,
                open: Some(
                    FormFrame {
                        form,
                        states,
                        categories,
                        open: Some(
                            CategoryFrame {
                                category,
                                fields,
                                open: Some(
                                    FieldFrame { field, entries, comments, open: child2 },
                                ),
                            },
                        ),
                    },
                ),
            },
        ),
    }
}

fn end_comment(st: ParserState) -> (r: ParserState)
    ensures
        r.deep_view() == spec_end_comment(st.deep_view()),
{
    let ParserState { patients, open } = st;
    let pf = match open {
        Some(pf) => pf,
        None => {
            return ParserState { patients, open: None };
        },
    };
    let PatientFrame { patient, forms, open: fopen } = pf;
    let ff = match fopen {
        Some(ff) => ff,
        None => {
            return ParserState {
                patients,
                open: Some(PatientFrame { patient, forms, open: None }),
            };
        },
    };
    let FormFrame { form, states, categories, open: copen } = ff;
    let cf = match copen {
        Some(cf) => cf,
        None => {
            return ParserState {
                patients,
                open: Some(
                    PatientFrame {
                        patient,
                        forms,
                        open: Some(FormFrame { form, states, categories, open: None }),
                    },
                ),
            };
        },
    };
    let CategoryFrame { category, fields, open: dopen } = cf;
    let fdf = match dopen {
        Some(fdf) => fdf,
        None => {
            return ParserState {
                patients,
                open: Some(
                    PatientFrame {
                        patient,
                        forms,
                        open: Some(
                            FormFrame {
                                form,
                                states,
                                categories,
                                open: Some(CategoryFrame { category, fields, open: None }),
                            },
                        ),
                    },
                ),
            };
        },
    };
    let FieldFrame { field, entries, mut comments, open: chopen } = fdf;
    let child2 = match chopen {
        Some(FieldChild::OpenComment(cfr)) => {
            let CommentFrame { comment, leaf: _ } = cfr;
            push_acc(&mut comments, comment);
            None
        },
        other => other,
    };
    ParserState {
        patients,
        open: Some(
            PatientFrame {
                patient,
                forms,
                open: Some(
                    FormFrame {
                        form,
                        states,
                        categories,
                        open: Some(
                            CategoryFrame {
                                category,
                                fields,
                                open: Some(
                                    FieldFrame { field, entries, comments, open: child2 },
                                ),
                            },
                        ),
                    },
                ),
            },
        ),
    }
}

fn end_value(st: ParserState) -> (r: ParserState)
    ensures
        r.deep_view() == spec_end_value(st.deep_view()),
{
    let ParserState { patients, open } = st;
    let pf = match open {
        Some(pf) => pf,
        None => {
            return ParserState { patients, open: None };
        },
    };
    let PatientFrame { patient, forms, open: fopen } = pf;
    let ff = match fopen {
        Some(ff) => ff,
        None => {
            return ParserState {
                patients,
                open: Some(PatientFrame { patient, forms, open: None }),
            };
        },
    };
    let FormFrame { form, states, categories, open: copen } = ff;
    let cf = match copen {
        Some(cf) => cf,
        None => {
            return ParserState {
                patients,
                open: Some(
                    PatientFrame {
                        patient,
                        forms,
                        open: Some(FormFrame { form, states, categories, open: None }),
                    },
                ),
            };
        },
    };
    let CategoryFrame { category, fields, open: dopen } = cf;
    let fdf = match dopen {
        Some(fdf) => fdf,
        None => {
            return ParserState {
                patients,
                open: Some(
                    PatientFrame {
                        patient,
                        forms,
                        open: Some(
                            FormFrame {
                                form,
                                states,
                                categories,
                                open: Some(CategoryFrame { category, fields, open: None }),
                            },
                        ),
                    },
                ),
            };
        },
    };
    let FieldFrame { field, entries, comments, open: chopen } = fdf;
    let child2 = match chopen {
        Some(FieldChild::OpenEntry(EntryFrame { entry, leaf: Some(LeafFrame::OpenValue(v)) })) => {
            Some(
                FieldChild::OpenEntry(
                    EntryFrame { entry: Entry { value: Some(v), ..entry }, leaf: None },
                ),
            )
        },
        Some(
            FieldChild::OpenComment(CommentFrame { comment, leaf: Some(LeafFrame::OpenValue(v)) }),
        ) => {
            Some(
                FieldChild::OpenComment(
                    CommentFrame { comment: Comment { value: Some(v), ..comment }, leaf: None },
                ),
            )
        },
        other => other,
    };
    ParserState {
        patients,
        open: Some(
            PatientFrame {
                patient,
                forms,
                open: Some(
                    FormFrame {
                        form,
                        states,
                        categories,
                        open: Some(
                            CategoryFrame {
                                category,
                                fields,
                                open: Some(
                                    FieldFrame { field, entries, comments, open: child2 },
                                ),
                            },
                        ),
                    },
                ),
            },
        ),
    }
}

fn end_reason(st: ParserState) -> (r: ParserState)
    ensures
        r.deep_view() == spec_end_reason(st.deep_view()),
{
    let ParserState { patients, open } = st;
    let pf = match open {
        Some(pf) => pf,
        None => {
            return ParserState { patients, open: None };
        },
    };
    let PatientFrame { patient, forms, open: fopen } = pf;
    let ff = match fopen {
        Some(ff) => ff,
        None => {
            return ParserState {
                patients,
                open: Some(PatientFrame { patient, forms, open: None }),
            };
        },
    };
    let FormFrame { form, states, categories, open: copen } = ff;
    let cf = match copen {
        Some(cf) => cf,
        None => {
            return ParserState {
                patients,
                open: Some(
                    PatientFrame {
                        patient,
                        forms,
                        open: Some(FormFrame { form, states, categories, open: None }),
                    },
                ),
            };
        },
    };
    let CategoryFrame { category, fields, open: dopen } = cf;
    let fdf = match dopen {
        Some(fdf) => fdf,
        None => {
            return ParserState {
                patients,
                open: Some(
                    PatientFrame {
                        patient,
                        forms,
                        open: Some(
                            FormFrame {
                                form,
                                states,
                                categories,
                                open: Some(CategoryFrame { category, fields, open: None }),
                            },
                        ),
                    },
                ),
            };
        },
    };
    let FieldFrame { field, entries, comments, open: chopen } = fdf;
    let child2 = match chopen {
        Some(FieldChild::OpenEntry(EntryFrame { entry, leaf: Some(LeafFrame::OpenReason(rr)) })) => {
            Some(
                FieldChild::OpenEntry(
                    EntryFrame { entry: Entry { reason: Some(rr), ..entry }, leaf: None },
                ),
            )
        },
        other => other,
    };
    ParserState {
        patients,
        open: Some(
            PatientFrame {
                patient,
                forms,
                open: Some(
                    FormFrame {
                        form,
                        states,
                        categories,
                        open: Some(
                            CategoryFrame {
                                category,
                                fields,
                                open: Some(
                                    FieldFrame { field, entries, comments, open: child2 },
                                ),
                            },
                        ),
                    },
                ),
            },
        ),
    }
}

/// One step of the streaming parser: dispatches a token to its handler, as
/// [`spec_step`] describes — the token's name is routed only when its
/// expected ancestor is open, and anything unknown is ignored.
pub fn step(st: ParserState, tok: &Token) -> (r: Result<ParserState, Error>)
    ensures
        match r {
            Ok(s2) => spec_step(st.deep_view(), tok.deep_view()) == Ok::<_, ErrorV>(s2.deep_view()),
            Err(e) => spec_step(st.deep_view(), tok.deep_view()) == Err::<ParserStateV, _>(
                e.deep_view(),
            ),
        },
{
    match tok {
        Token::Start { name, attrs } => {
            if str_eq(name.as_str(), "patient") {
                start_patient(st, attrs)
            } else if str_eq(name.as_str(), "form") {
                Ok(start_form(st, attrs))
            } else if str_eq(name.as_str(), "category") {
                Ok(start_category(st, attrs))
            } else if str_eq(name.as_str(), "field") {
                start_field(st, attrs)
            } else if str_eq(name.as_str(), "entry") {
                Ok(start_entry(st, attrs))
            } else if str_eq(name.as_str(), "comment") {
                Ok(start_comment(st, attrs))
            } else if str_eq(name.as_str(), "value") {
                start_value(st, attrs)
            } else if str_eq(name.as_str(), "reason") {
                start_reason(st, attrs)
            } else {
                Ok(st)
            }
        },
        Token::Empty { name, attrs } => {
            if str_eq(name.as_str(), "state") {
                Ok(empty_state(st, attrs))
            } else if str_eq(name.as_str(), "value") {
                empty_value(st, attrs)
            } else if str_eq(name.as_str(), "reason") {
                empty_reason(st, attrs)
            } else {
                Ok(st)
            }
        },
        Token::End { name } => {
            if str_eq(name.as_str(), "patient") {
                Ok(end_patient(st))
            } else if str_eq(name.as_str(), "form") {
                Ok(end_form(st))
            } else if str_eq(name.as_str(), "category") {
                Ok(end_category(st))
            } else if str_eq(name.as_str(), "field") {
                Ok(end_field(st))
            } else if str_eq(name.as_str(), "entry") {
                Ok(end_entry(st))
            } else if str_eq(name.as_str(), "comment") {
                Ok(end_comment(st))
            } else if str_eq(name.as_str(), "value") {
                Ok(end_value(st))
            } else if str_eq(name.as_str(), "reason") {
                Ok(end_reason(st))
            } else {
                Ok(st)
            }
        },
        Token::Text { text } => Ok(text_token(st, text)),
        Token::Eof => Ok(st),
        Token::Other => Ok(st),
    }
}

/// The state machine run over a whole token sequence, left to right; the
/// first fatal step aborts the run.
pub open spec fn spec_run(s: ParserStateV, toks: Seq<TokenV>) -> Result<ParserStateV, ErrorV>
    decreases toks.len(),
{
    if toks.len() == 0 {
        Ok(s)
    } else {
        match spec_step(s, toks[0]) {
            Ok(s2) => spec_run(s2, toks.skip(1)),
            Err(e) => Err(e),
        }
    }
}

/// What parsing a token sequence yields: the finished patients of the final
/// state — unclosed elements are discarded — or the first fatal error.
pub open spec fn spec_parse_tokens(toks: Seq<TokenV>) -> Result<SubjectNativeV, ErrorV> {
    match spec_run(spec_initial_state(), toks) {
        Ok(s) => Ok(SubjectNativeV { patients: s.patients }),
        Err(e) => Err(e),
    }
}

/// Runs the state machine over a whole token sequence, single pass, left to
/// right, and returns the assembled document — or the first fatal error, in
/// which case no tree is returned at all.
pub fn parse_tokens(tokens: &Vec<Token>) -> (r: Result<SubjectNative, Error>)
    ensures
        match r {
            Ok(n) => spec_parse_tokens(tokens.deep_view()) == Ok::<_, ErrorV>(n.deep_view()),
            Err(e) => spec_parse_tokens(tokens.deep_view()) == Err::<SubjectNativeV, _>(
                e.deep_view(),
            ),
        },
{
    let ghost toks = tokens.deep_view();
    let mut st = ParserState::new();
    let mut i: usize = 0;
    proof {
        assert(toks.skip(0) =~= toks);
    }
    while i < tokens.len()
        invariant
            i <= tokens.len(),
            toks == tokens.deep_view(),
            toks.len() == tokens.len(),
            spec_run(spec_initial_state(), toks) == spec_run(st.deep_view(), toks.skip(i as int)),
        decreases tokens.len() - i,
    {
        let tok = &tokens[i];
        proof {
            assert(tok.deep_view() == toks[i as int]);
            assert(toks.skip(i as int)[0] == toks[i as int]);
            assert(toks.skip(i as int).skip(1) =~= toks.skip(i + 1));
        }
        st = match step(st, tok) {
            Ok(s2) => s2,
            Err(e) => {
                return Err(e);
            },
        };
        i += 1;
    }
    proof {
        assert(toks.skip(tokens.len() as int) =~= Seq::<TokenV>::empty());
    }
    Ok(SubjectNative { patients: st.patients })
}

} // verus!
