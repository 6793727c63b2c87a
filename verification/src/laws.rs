//! The laws of the parsed tree: well-formedness that every parse guarantees,
//! and what the close-tag handlers preserve of document order and content.

use vstd::prelude::*;

use crate::attrs::attrs_find;
use crate::errors::ErrorV;
use crate::native::common::{
    spec_form_from_attrs, spec_reason_from_attrs, spec_state_from_attrs, spec_value_from_attrs,
    CategoryV, CommentV, FieldV, FormV, ValueV,
};
use crate::native::subject_native::{spec_patient_from_attrs, PatientV, SubjectNativeV};
use crate::streaming::{
    spec_end_comment, spec_end_value, spec_initial_state, spec_parse_tokens, spec_run, spec_step,
    spec_with_field_frame, CategoryFrameV, CommentFrameV, FieldChildV, FieldFrameV, FormFrameV,
    LeafFrameV, ParserStateV, PatientFrameV, TokenV,
};

verus! {

// ---------------------------------------------------------------------------
// Well-formedness: every list the parser attaches is absent or non-empty, at
// every level of the tree.
// ---------------------------------------------------------------------------

/// A field's child lists are absent or non-empty.
pub open spec fn wf_field(f: FieldV) -> bool {
    &&& (f.entries matches Some(es) ==> es.len() > 0)
    &&& (f.comments matches Some(cs) ==> cs.len() > 0)
}

/// A category's field list is absent or non-empty, and its fields are
/// well-formed.
pub open spec fn wf_category(c: CategoryV) -> bool {
    match c.fields {
        Some(fs) => fs.len() > 0 && forall|i: int| 0 <= i < fs.len() ==> wf_field(#[trigger] fs[i]),
        None => true,
    }
}

/// A form's child lists are absent or non-empty, and its categories are
/// well-formed.
pub open spec fn wf_form(f: FormV) -> bool {
    &&& (f.states matches Some(ss) ==> ss.len() > 0)
    &&& match f.categories {
        Some(cs) => cs.len() > 0 && forall|i: int|
            0 <= i < cs.len() ==> wf_category(#[trigger] cs[i]),
        None => true,
    }
}

/// A patient's form list is absent — never empty — when no form was parsed,
/// and its forms are well-formed.
pub open spec fn wf_patient(p: PatientV) -> bool {
    match p.forms {
        Some(fs) => fs.len() > 0 && forall|i: int| 0 <= i < fs.len() ==> wf_form(#[trigger] fs[i]),
        None => true,
    }
}

/// Every patient of a parsed document is well-formed.
pub open spec fn wf_subject_native(n: SubjectNativeV) -> bool {
    forall|i: int| 0 <= i < n.patients.len() ==> wf_patient(#[trigger] n.patients[i])
}

/// The parser invariant: every finished patient is well-formed, and every
/// accumulator of the open frame chain holds only well-formed nodes.
pub open spec fn wf_state_inv(s: ParserStateV) -> bool {
    &&& (forall|i: int| 0 <= i < s.patients.len() ==> wf_patient(#[trigger] s.patients[i]))
    &&& match s.open {
        Some(pf) => {
            &&& (forall|i: int| 0 <= i < pf.forms.len() ==> wf_form(#[trigger] pf.forms[i]))
            &&& match pf.open {
                Some(ff) => {
                    &&& (forall|i: int|
                        0 <= i < ff.categories.len() ==> wf_category(#[trigger] ff.categories[i]))
                    &&& match ff.open {
                        Some(cf) => forall|i: int|
                            0 <= i < cf.fields.len() ==> wf_field(#[trigger] cf.fields[i]),
                        None => true,
                    }
                },
                None => true,
            }
        },
        None => true,
    }
}

/// One step of the state machine preserves the parser invariant.
pub proof fn lemma_step_preserves_wf(s: ParserStateV, t: TokenV)
    requires
        wf_state_inv(s),
    ensures
        spec_step(s, t) matches Ok(s2) ==> wf_state_inv(s2),
{
}

/// A whole run of the state machine preserves the parser invariant.
pub proof fn lemma_run_preserves_wf(s: ParserStateV, toks: Seq<TokenV>)
    requires
        wf_state_inv(s),
    ensures
        spec_run(s, toks) matches Ok(s2) ==> wf_state_inv(s2),
    decreases toks.len(),
{
    if toks.len() > 0 {
        match spec_step(s, toks[0]) {
            Ok(s2) => {
                lemma_step_preserves_wf(s, toks[0]);
                lemma_run_preserves_wf(s2, toks.skip(1));
            },
            Err(_) => {},
        }
    }
}

/// Whatever token sequence a document tokenizes to, a successfully parsed
/// tree is well-formed: every list in it is absent or non-empty, at every
/// level.
pub proof fn lemma_parse_tokens_wf(toks: Seq<TokenV>)
    ensures
        spec_parse_tokens(toks) matches Ok(n) ==> wf_subject_native(n),
{
    assert(wf_state_inv(spec_initial_state()));
    lemma_run_preserves_wf(spec_initial_state(), toks);
}

/// A parsed patient never carries an empty form list: where no form child
/// was parsed its `forms` is `None`, so a form-count hint of zero on a
/// childless patient reads back as `None`, never as an empty list.
pub proof fn lemma_patient_forms_never_empty(toks: Seq<TokenV>, n: SubjectNativeV, i: int)
    requires
        spec_parse_tokens(toks) == Ok::<SubjectNativeV, ErrorV>(n),
        0 <= i < n.patients.len(),
    ensures
        n.patients[i].forms matches Some(fs) ==> fs.len() > 0,
{
    lemma_parse_tokens_wf(toks);
}

// ---------------------------------------------------------------------------
// The error taxonomy of the state machine: every fatal outcome is a parsing
// error — the caller gets a complete tree or a `ParsingError`, never a
// partial tree and never another error kind.
// ---------------------------------------------------------------------------

/// One step fails only as a parsing error: its one fatal coercion — an
/// unparsable non-empty required datetime — raises `ParsingError`.
pub proof fn lemma_step_err_is_parsing(s: ParserStateV, t: TokenV)
    ensures
        spec_step(s, t) matches Err(e) ==> e is ParsingError,
{
}

/// A whole run fails only as a parsing error.
pub proof fn lemma_run_err_is_parsing(s: ParserStateV, toks: Seq<TokenV>)
    ensures
        spec_run(s, toks) matches Err(e) ==> e is ParsingError,
    decreases toks.len(),
{
    if toks.len() > 0 {
        lemma_step_err_is_parsing(s, toks[0]);
        match spec_step(s, toks[0]) {
            Ok(s1) => {
                lemma_run_err_is_parsing(s1, toks.skip(1));
            },
            Err(_) => {},
        }
    }
}

/// Parsing a token sequence fails only as a parsing error.
pub proof fn lemma_parse_tokens_err_is_parsing(toks: Seq<TokenV>)
    ensures
        spec_parse_tokens(toks) matches Err(e) ==> e is ParsingError,
{
    lemma_run_err_is_parsing(spec_initial_state(), toks);
}

// ---------------------------------------------------------------------------
// Finished nodes are final: the patient list only ever grows at its end.
// ---------------------------------------------------------------------------

/// One step never revises, reorders or drops a finished patient: the
/// patients closed so far are a prefix of the patients after the step.
pub proof fn lemma_step_keeps_finished_patients(s: ParserStateV, t: TokenV)
    ensures
        spec_step(s, t) matches Ok(s2) ==> s.patients.is_prefix_of(s2.patients),
{
    let p = s.patients;
    assert(p =~= p.subrange(0, p.len() as int));
    assert forall|x: PatientV| p.is_prefix_of(#[trigger] p.push(x)) by {
        assert(p =~= p.push(x).subrange(0, p.len() as int));
    }
}

/// Over a whole run, the patient list is append-only: whatever tokens
/// follow, the patients already finished stay, in their document order.
pub proof fn lemma_run_keeps_finished_patients(s: ParserStateV, toks: Seq<TokenV>)
    ensures
        spec_run(s, toks) matches Ok(s2) ==> s.patients.is_prefix_of(s2.patients),
    decreases toks.len(),
{
    if toks.len() > 0 {
        match spec_step(s, toks[0]) {
            Ok(s1) => {
                lemma_step_keeps_finished_patients(s, toks[0]);
                lemma_run_keeps_finished_patients(s1, toks.skip(1));
                match spec_run(s1, toks.skip(1)) {
                    Ok(s2) => {
                        assert(s.patients =~= s2.patients.subrange(0, s.patients.len() as int));
                    },
                    Err(_) => {},
                }
            },
            Err(_) => {},
        }
    }
}

// ---------------------------------------------------------------------------
// Document order and content of comments.
// ---------------------------------------------------------------------------

/// Closing a comment appends it — its id and nested value intact — to the
/// open field's comment list, after every comment closed before it: the
/// parsed comment list carries the comments in document order.
pub proof fn lemma_end_comment_appends(
    s: ParserStateV,
    pf: PatientFrameV,
    ff: FormFrameV,
    cf: CategoryFrameV,
    fdf: FieldFrameV,
    cfr: CommentFrameV,
)
    requires
        s.open == Some(
            PatientFrameV {
                open: Some(
                    FormFrameV {
                        open: Some(
                            CategoryFrameV {
                                open: Some(
                                    FieldFrameV {
                                        open: Some(FieldChildV::OpenComment(cfr)),
                                        ..fdf
                                    },
                                ),
                                ..cf
                            },
                        ),
                        ..ff
                    },
                ),
                ..pf
            },
        ),
    ensures
        spec_end_comment(s) == spec_with_field_frame(
            s,
            PatientFrameV {
                open: Some(
                    FormFrameV {
                        open: Some(
                            CategoryFrameV {
                                open: Some(
                                    FieldFrameV {
                                        open: Some(FieldChildV::OpenComment(cfr)),
                                        ..fdf
                                    },
                                ),
                                ..cf
                            },
                        ),
                        ..ff
                    },
                ),
                ..pf
            },
            FormFrameV {
                open: Some(
                    CategoryFrameV {
                        open: Some(
                            FieldFrameV { open: Some(FieldChildV::OpenComment(cfr)), ..fdf },
                        ),
                        ..cf
                    },
                ),
                ..ff
            },
            CategoryFrameV {
                open: Some(FieldFrameV { open: Some(FieldChildV::OpenComment(cfr)), ..fdf }),
                ..cf
            },
            FieldFrameV { comments: fdf.comments.push(cfr.comment), open: None, ..fdf },
        ),
        spec_end_comment(s).open matches Some(pf2) && pf2.open matches Some(ff2) && ff2.open
            matches Some(cf2) && cf2.open matches Some(fdf2) && fdf2.comments == fdf.comments.push(
            cfr.comment,
        ),
{
}

/// Closing a `<value>` under an open comment attaches exactly the
/// accumulated value — actor, role, timestamp and body text — to that
/// comment.
pub proof fn lemma_end_value_in_comment(
    s: ParserStateV,
    pf: PatientFrameV,
    ff: FormFrameV,
    cf: CategoryFrameV,
    fdf: FieldFrameV,
    c: CommentV,
    v: ValueV,
)
    requires
        s.open == Some(
            PatientFrameV {
                open: Some(
                    FormFrameV {
                        open: Some(
                            CategoryFrameV {
                                open: Some(
                                    FieldFrameV {
                                        open: Some(
                                            FieldChildV::OpenComment(
                                                CommentFrameV {
                                                    comment: c,
                                                    leaf: Some(LeafFrameV::OpenValue(v)),
                                                },
                                            ),
                                        ),
                                        ..fdf
                                    },
                                ),
                                ..cf
                            },
                        ),
                        ..ff
                    },
                ),
                ..pf
            },
        ),
    ensures
        spec_end_value(s).open matches Some(pf2) && pf2.open matches Some(ff2) && ff2.open
            matches Some(cf2) && cf2.open matches Some(fdf2) && fdf2.open == Some(
            FieldChildV::OpenComment(
                CommentFrameV { comment: CommentV { value: Some(v), ..c }, leaf: None },
            ),
        ),
{
}

// ---------------------------------------------------------------------------
// The blank-datetime leniency rules.
// ---------------------------------------------------------------------------

/// A `<value>`/`<reason>` whose `when` attribute is the empty string builds
/// successfully, with an absent timestamp: a blank audit date never aborts
/// the parse.
pub proof fn lemma_blank_when_reads_as_none(a: Seq<(Seq<char>, Seq<char>)>)
    requires
        attrs_find(a, "when"@) == Some(Seq::<char>::empty()),
    ensures
        spec_value_from_attrs(a) matches Ok(v) && v.when is None,
        spec_reason_from_attrs(a) matches Ok(r) && r.when is None,
{
}

/// A `<state>` whose `dateSigned` attribute is the empty string reads as
/// unsigned: its optional timestamp is absent.
pub proof fn lemma_blank_date_signed_reads_as_none(a: Seq<(Seq<char>, Seq<char>)>)
    requires
        attrs_find(a, "dateSigned"@) == Some(Seq::<char>::empty()),
    ensures
        spec_state_from_attrs(a).date_signed is None,
{
}

/// A `<form>` whose `lastModified` attribute is the empty string reads as
/// never modified: its optional timestamp is absent.
pub proof fn lemma_blank_last_modified_reads_as_none(a: Seq<(Seq<char>, Seq<char>)>)
    requires
        attrs_find(a, "lastModified"@) == Some(Seq::<char>::empty()),
    ensures
        spec_form_from_attrs(a).last_modified is None,
{
}

/// A `<patient>` whose `whenCreated` attribute is the empty string still
/// builds successfully — the blank required datetime degrades to `None`
/// rather than aborting the parse of its attributes or its forms.
pub proof fn lemma_blank_when_created_reads_as_none(a: Seq<(Seq<char>, Seq<char>)>)
    requires
        attrs_find(a, "whenCreated"@) == Some(Seq::<char>::empty()),
    ensures
        spec_patient_from_attrs(a) matches Ok(p) && p.when_created is None,
{
}

} // verus!
