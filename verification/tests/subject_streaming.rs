use prelude_xml_parser::errors::Error;
use prelude_xml_parser::parse_subject_native_string;

#[test]
fn test_forms_parsing_regression() {
    let xml = r#"<?xml version="1.0" encoding="UTF-8"?>
<export_from_vision_EDC date="30-May-2024 10:35 -0500" createdBy="Test User" role="Project Manager" numberSubjectsProcessed="1">
    <patient patientId="TEST-001" uniqueId="123456789" whenCreated="2023-04-15 12:09:02 -0400" creator="Test User" siteName="Test Site" siteUniqueId="987654321" lastLanguage="English" numberOfForms="2">
        <form name="test.form.1" lastModified="2023-04-15 12:09:15 -0400" whoLastModifiedName="Test User" whoLastModifiedRole="Tester" whenCreated="123456789" hasErrors="false" hasWarnings="false" locked="false" user="" dateTimeChanged="" formTitle="Test Form 1" formIndex="1" formGroup="Test Group" formState="In-Work">
            <state value="form.state.in.work" signer="Test User - Tester" signerUniqueId="111111111" dateSigned="2023-04-15 12:09:02 -0400"/>
            <category name="Test Category" type="normal" highestIndex="0">
                <field name="test_field" type="text" dataType="string" errorCode="valid" whenCreated="2023-04-15 12:08:26 -0400" keepHistory="true">
                    <entry id="1">
                        <value by="Test User" byUniqueId="111111111" role="Tester" when="2023-04-15 12:09:02 -0400" xml:space="preserve">Test Value</value>
                    </entry>
                </field>
            </category>
        </form>
        <form name="test.form.2" lastModified="2023-04-15 12:10:15 -0400" whoLastModifiedName="Test User" whoLastModifiedRole="Tester" whenCreated="123456790" hasErrors="false" hasWarnings="false" locked="false" user="" dateTimeChanged="" formTitle="Test Form 2" formIndex="2" formGroup="Test Group" formState="Complete">
            <state value="form.state.complete" signer="Test User - Tester" signerUniqueId="111111111" dateSigned="2023-04-15 12:10:02 -0400"/>
        </form>
    </patient>
</export_from_vision_EDC>"#;

    let result = parse_subject_native_string(xml).expect("Should parse successfully");

    assert_eq!(result.patients.len(), 1, "Should have exactly 1 patient");

    let patient = &result.patients[0];
    assert_eq!(patient.patient_id, "TEST-001");
    assert_eq!(patient.number_of_forms, 2);

    let forms = patient.forms.as_ref().expect("Patient should have forms");
    assert_eq!(forms.len(), 2, "Patient should have exactly 2 forms");

    let form1 = &forms[0];
    assert_eq!(form1.name, "test.form.1");
    assert_eq!(form1.form_title, "Test Form 1");
    assert_eq!(form1.form_index, 1);
    assert_eq!(form1.form_state, "In-Work");

    let states1 = form1.states.as_ref().expect("Form 1 should have states");
    assert_eq!(states1.len(), 1);
    assert_eq!(states1[0].value, "form.state.in.work");

    let categories1 = form1
        .categories
        .as_ref()
        .expect("Form 1 should have categories");
    assert_eq!(categories1.len(), 1);
    assert_eq!(categories1[0].name, "Test Category");

    let fields1 = categories1[0]
        .fields
        .as_ref()
        .expect("Category should have fields");
    assert_eq!(fields1.len(), 1);
    assert_eq!(fields1[0].name, "test_field");

    let entries1 = fields1[0]
        .entries
        .as_ref()
        .expect("Field should have entries");
    assert_eq!(entries1.len(), 1);
    assert_eq!(entries1[0].entry_id, "1");

    let value1 = entries1[0].value.as_ref().expect("Entry should have value");
    assert_eq!(value1.value, "Test Value");
    assert_eq!(value1.by, "Test User");
    assert_eq!(value1.role, "Tester");

    let form2 = &forms[1];
    assert_eq!(form2.name, "test.form.2");
    assert_eq!(form2.form_title, "Test Form 2");
    assert_eq!(form2.form_index, 2);
    assert_eq!(form2.form_state, "Complete");

    let states2 = form2.states.as_ref().expect("Form 2 should have states");
    assert_eq!(states2.len(), 1);
    assert_eq!(states2[0].value, "form.state.complete");
}

#[test]
fn test_comments_parsing_regression() {
    let xml = r#"<?xml version="1.0" encoding="UTF-8"?>
<export_from_vision_EDC date="30-May-2024 10:35 -0500" createdBy="Test User" role="Project Manager" numberSubjectsProcessed="1">
    <patient patientId="TEST-002" uniqueId="123456790" whenCreated="2023-04-15 12:09:02 -0400" creator="Test User" siteName="Test Site" siteUniqueId="987654321" lastLanguage="English" numberOfForms="1">
        <form name="test.form.with.comments" lastModified="2023-04-15 12:09:15 -0400" whoLastModifiedName="Test User" whoLastModifiedRole="Tester" whenCreated="123456789" hasErrors="false" hasWarnings="false" locked="false" user="" dateTimeChanged="" formTitle="Test Form With Comments" formIndex="1" formGroup="Test Group" formState="In-Work">
            <category name="Test Category" type="normal" highestIndex="0">
                <field name="field_with_comments" type="text" dataType="string" errorCode="valid" whenCreated="2023-04-15 12:08:26 -0400" keepHistory="true">
                    <entry id="1">
                        <value by="Test User" byUniqueId="111111111" role="Tester" when="2023-04-15 12:09:02 -0400" xml:space="preserve">Field Value</value>
                    </entry>
                    <comment id="1">
                        <value by="Test User" byUniqueId="111111111" role="Tester" when="2023-04-15 12:09:05 -0400" xml:space="preserve">First comment</value>
                    </comment>
                    <comment id="2">
                        <value by="Another User" byUniqueId="222222222" role="Auditor" when="2023-04-15 12:10:00 -0400" xml:space="preserve">Second comment</value>
                    </comment>
                </field>
                <field name="field_without_comments" type="text" dataType="string" errorCode="valid" whenCreated="2023-04-15 12:08:30 -0400" keepHistory="true">
                    <entry id="1">
                        <value by="Test User" byUniqueId="111111111" role="Tester" when="2023-04-15 12:09:10 -0400" xml:space="preserve">Another Value</value>
                    </entry>
                </field>
            </category>
        </form>
    </patient>
</export_from_vision_EDC>"#;

    let result = parse_subject_native_string(xml).expect("Should parse successfully");

    assert_eq!(result.patients.len(), 1, "Should have exactly 1 patient");

    let patient = &result.patients[0];
    let forms = patient.forms.as_ref().expect("Patient should have forms");
    let form = &forms[0];
    let categories = form
        .categories
        .as_ref()
        .expect("Form should have categories");
    let fields = categories[0]
        .fields
        .as_ref()
        .expect("Category should have fields");
    assert_eq!(fields.len(), 2, "Should have 2 fields");

    let field_with_comments = &fields[0];
    assert_eq!(field_with_comments.name, "field_with_comments");

    let comments = field_with_comments
        .comments
        .as_ref()
        .expect("Field should have comments");
    assert_eq!(comments.len(), 2, "Should have exactly 2 comments");

    let comment1 = &comments[0];
    assert_eq!(comment1.comment_id, "1");
    let comment1_value = comment1
        .value
        .as_ref()
        .expect("Comment 1 should have value");
    assert_eq!(comment1_value.value, "First comment");
    assert_eq!(comment1_value.by, "Test User");
    assert_eq!(comment1_value.role, "Tester");

    let comment2 = &comments[1];
    assert_eq!(comment2.comment_id, "2");
    let comment2_value = comment2
        .value
        .as_ref()
        .expect("Comment 2 should have value");
    assert_eq!(comment2_value.value, "Second comment");
    assert_eq!(comment2_value.by, "Another User");
    assert_eq!(comment2_value.role, "Auditor");

    let field_without_comments = &fields[1];
    assert_eq!(field_without_comments.name, "field_without_comments");
    assert!(
        field_without_comments.comments.is_none(),
        "Field without comments should have no comments"
    );
}

#[test]
fn test_empty_forms_handling() {
    let xml = r#"<?xml version="1.0" encoding="UTF-8"?>
<export_from_vision_EDC date="30-May-2024 10:35 -0500" createdBy="Test User" role="Project Manager" numberSubjectsProcessed="1">
    <patient patientId="TEST-003" uniqueId="123456791" whenCreated="2023-04-15 12:09:02 -0400" creator="Test User" siteName="Test Site" siteUniqueId="987654321" lastLanguage="English" numberOfForms="0">
    </patient>
</export_from_vision_EDC>"#;

    let result = parse_subject_native_string(xml).expect("Should parse successfully");

    assert_eq!(result.patients.len(), 1, "Should have exactly 1 patient");

    let patient = &result.patients[0];
    assert_eq!(patient.patient_id, "TEST-003");
    assert_eq!(patient.number_of_forms, 0);
    assert!(
        patient.forms.is_none(),
        "Patient with 0 forms should have None for forms"
    );
}

#[test]
fn test_large_patient_forms_regression() {
    let mut xml = String::from(
        r#"<?xml version="1.0" encoding="UTF-8"?>
<export_from_vision_EDC date="30-May-2024 10:35 -0500" createdBy="Test User" role="Project Manager" numberSubjectsProcessed="1">
    <patient patientId="LARGE-TEST" uniqueId="123456792" whenCreated="2023-04-15 12:09:02 -0400" creator="Test User" siteName="Test Site" siteUniqueId="987654321" lastLanguage="English" numberOfForms="50">"#,
    );

    for i in 1..=50 {
        xml.push_str(&format!(r#"
        <form name="test.form.{}" lastModified="2023-04-15 12:09:15 -0400" whoLastModifiedName="Test User" whoLastModifiedRole="Tester" whenCreated="12345678{}" hasErrors="false" hasWarnings="false" locked="false" user="" dateTimeChanged="" formTitle="Test Form {}" formIndex="{}" formGroup="Test Group" formState="In-Work">
            <state value="form.state.in.work" signer="Test User - Tester" signerUniqueId="111111111" dateSigned="2023-04-15 12:09:02 -0400"/>
            <category name="Category {}" type="normal" highestIndex="0">
                <field name="field_{}" type="text" dataType="string" errorCode="valid" whenCreated="2023-04-15 12:08:26 -0400" keepHistory="true">
                    <entry id="1">
                        <value by="Test User" byUniqueId="111111111" role="Tester" when="2023-04-15 12:09:02 -0400" xml:space="preserve">Value {}</value>
                    </entry>
                    <comment id="1">
                        <value by="Test User" byUniqueId="111111111" role="Tester" when="2023-04-15 12:09:05 -0400" xml:space="preserve">Comment for form {}</value>
                    </comment>
                </field>
            </category>
        </form>"#, i, i, i, i, i, i, i, i));
    }

    xml.push_str(
        r#"
    </patient>
</export_from_vision_EDC>"#,
    );

    let result =
        parse_subject_native_string(&xml).expect("Should parse large patient successfully");

    assert_eq!(result.patients.len(), 1, "Should have exactly 1 patient");

    let patient = &result.patients[0];
    assert_eq!(patient.patient_id, "LARGE-TEST");
    assert_eq!(patient.number_of_forms, 50);

    let forms = patient.forms.as_ref().expect("Patient should have forms");
    assert_eq!(forms.len(), 50, "Patient should have exactly 50 forms");

    for (i, form) in forms.iter().enumerate() {
        let form_num = i + 1;
        assert_eq!(form.name, format!("test.form.{}", form_num));
        assert_eq!(form.form_title, format!("Test Form {}", form_num));
        assert_eq!(form.form_index, form_num);

        let categories = form
            .categories
            .as_ref()
            .expect("Form should have categories");
        assert_eq!(categories.len(), 1);

        let fields = categories[0]
            .fields
            .as_ref()
            .expect("Category should have fields");
        assert_eq!(fields.len(), 1);

        let entries = fields[0]
            .entries
            .as_ref()
            .expect("Field should have entries");
        assert_eq!(entries.len(), 1);
        assert_eq!(
            entries[0].value.as_ref().unwrap().value,
            format!("Value {}", form_num)
        );

        let comments = fields[0]
            .comments
            .as_ref()
            .expect("Field should have comments");
        assert_eq!(comments.len(), 1);
        assert_eq!(
            comments[0].value.as_ref().unwrap().value,
            format!("Comment for form {}", form_num)
        );
    }
}

#[test]
fn test_malformed_datetime_handling() {
    let xml = r#"<?xml version="1.0" encoding="UTF-8"?>
<export_from_vision_EDC date="30-May-2024 10:35 -0500" createdBy="Test User" role="Project Manager" numberSubjectsProcessed="1">
    <patient patientId="TEST-004" uniqueId="123456793" whenCreated="" creator="Test User" siteName="Test Site" siteUniqueId="987654321" lastLanguage="English" numberOfForms="1">
        <form name="test.form.malformed.dates" lastModified="" whoLastModifiedName="Test User" whoLastModifiedRole="Tester" whenCreated="123456789" hasErrors="false" hasWarnings="false" locked="false" user="" dateTimeChanged="" formTitle="Test Form" formIndex="1" formGroup="Test Group" formState="In-Work">
            <category name="Test Category" type="normal" highestIndex="0">
                <field name="test_field" type="text" dataType="string" errorCode="valid" whenCreated="" keepHistory="true">
                    <entry id="1">
                        <value by="Test User" byUniqueId="111111111" role="Tester" when="2023-04-15 12:09:02 -0400" xml:space="preserve">Test Value</value>
                    </entry>
                </field>
            </category>
        </form>
    </patient>
</export_from_vision_EDC>"#;

    let result =
        parse_subject_native_string(xml).expect("Should handle malformed datetimes gracefully");

    assert_eq!(result.patients.len(), 1, "Should have exactly 1 patient");

    let patient = &result.patients[0];
    assert!(
        patient.when_created.is_none(),
        "Empty whenCreated should be None"
    );

    let forms = patient.forms.as_ref().expect("Patient should have forms");
    let form = &forms[0];
    assert!(
        form.last_modified.is_none(),
        "Empty lastModified should be None"
    );

    let categories = form
        .categories
        .as_ref()
        .expect("Form should have categories");
    let fields = categories[0]
        .fields
        .as_ref()
        .expect("Category should have fields");
    let field = &fields[0];
    assert!(
        field.when_created.is_none(),
        "Empty whenCreated in field should be None"
    );
}

#[test]
fn test_empty_datetime_in_value_and_reason() {
    let xml = r#"<?xml version="1.0" encoding="UTF-8"?>
<export_from_vision_EDC date="30-May-2024 10:35 -0500" createdBy="Test User" role="Project Manager" numberSubjectsProcessed="1">
  <patient patientId="TEST-001" uniqueId="123456" whenCreated="2023-04-15 12:09:02 -0400" creator="Test User" siteName="Test Site" siteUniqueId="654321" lastLanguage="" numberOfForms="1">
    <form name="test.form" lastModified="2023-04-15 12:09:15 -0400" whoLastModifiedName="Test User" whoLastModifiedRole="Manager" whenCreated="1681574905839" hasErrors="false" hasWarnings="false" locked="false" user="" dateTimeChanged="" formTitle="Test Form" formIndex="1" formGroup="Test" formState="In-Work">
      <state value="form.state.in.work" signer="Test User - Manager" signerUniqueId="123456" dateSigned="2023-04-15 12:09:02 -0400" />
      <category name="Test Category" type="normal" highestIndex="0">
        <field name="test_field" type="text" dataType="string" errorCode="valid" whenCreated="2023-04-15 12:08:26 -0400" keepHistory="true">
          <entry id="1">
            <value by="Test User" byUniqueId="123456" role="Manager" when="" xml:space="preserve">Test Value</value>
            <reason by="Test User" byUniqueId="123456" role="Manager" when="" xml:space="preserve">Test Reason</reason>
          </entry>
        </field>
      </category>
    </form>
  </patient>
</export_from_vision_EDC>"#;

    let result = parse_subject_native_string(xml);
    assert!(result.is_ok(), "Should parse successfully: {:?}", result);

    let native = result.unwrap();
    assert_eq!(native.patients.len(), 1, "Should have 1 patient");

    let patient = &native.patients[0];
    let forms = patient.forms.as_ref().expect("Patient should have forms");
    let form = &forms[0];
    let categories = form
        .categories
        .as_ref()
        .expect("Form should have categories");
    let fields = categories[0]
        .fields
        .as_ref()
        .expect("Category should have fields");
    let field = &fields[0];
    let entries = field.entries.as_ref().expect("Field should have entries");
    let entry = &entries[0];

    let value = entry.value.as_ref().expect("Entry should have value");
    assert!(
        value.when.is_none(),
        "Empty when attribute in value should be None"
    );
    assert_eq!(value.value, "Test Value");

    let reason = entry.reason.as_ref().expect("Entry should have reason");
    assert!(
        reason.when.is_none(),
        "Empty when attribute in reason should be None"
    );
    assert_eq!(reason.value, "Test Reason");
}

#[test]
fn test_unknown_and_out_of_context_elements_ignored() {
    let xml = r#"<?xml version="1.0" encoding="UTF-8"?>
<export_from_vision_EDC date="30-May-2024 10:35 -0500" createdBy="Test User" role="Project Manager" numberSubjectsProcessed="1">
    <banner>decorative</banner>
    <field name="stray" type="text" dataType="string" errorCode="valid" whenCreated="" keepHistory="true"/>
    <patient patientId="TEST-005" uniqueId="123456794" whenCreated="2023-04-15 12:09:02 -0400" creator="Test User" siteName="Test Site" siteUniqueId="987654321" lastLanguage="English" numberOfForms="1">
        <unexpected attr="x"/>
        <form name="test.form" lastModified="2023-04-15 12:09:15 -0400" whoLastModifiedName="Test User" whoLastModifiedRole="Tester" whenCreated="123456789" hasErrors="false" hasWarnings="false" locked="false" user="" dateTimeChanged="" formTitle="Test Form" formIndex="1" formGroup="Test Group" formState="In-Work">
        </form>
    </patient>
</export_from_vision_EDC>"#;

    let result = parse_subject_native_string(xml).expect("Should parse successfully");
    assert_eq!(result.patients.len(), 1);
    let patient = &result.patients[0];
    assert_eq!(patient.patient_id, "TEST-005");
    let forms = patient.forms.as_ref().expect("Patient should have forms");
    assert_eq!(forms.len(), 1);
    assert!(forms[0].states.is_none());
    assert!(forms[0].categories.is_none());
}

#[test]
fn test_unparsable_required_datetime_is_fatal() {
    let xml = r#"<export_from_vision_EDC>
    <patient patientId="TEST-006" uniqueId="1" whenCreated="not a datetime" creator="Test User" siteName="Test Site" siteUniqueId="2" lastLanguage="" numberOfForms="0">
    </patient>
</export_from_vision_EDC>"#;

    let result = parse_subject_native_string(xml);
    assert!(matches!(result, Err(Error::ParsingError(_))));
}

#[test]
fn test_malformed_document_is_fatal() {
    let xml = r#"<export_from_vision_EDC>
    <patient patientId="TEST-007" uniqueId="1" whenCreated="" creator="x" siteName="y" siteUniqueId="2" lastLanguage="" numberOfForms="0">
    </wrong>
</export_from_vision_EDC>"#;

    let result = parse_subject_native_string(xml);
    assert!(matches!(result, Err(Error::ParsingError(_))));
}

#[test]
fn test_blank_date_signed_and_unparsable_optional_dates() {
    let xml = r#"<export_from_vision_EDC>
    <patient patientId="TEST-008" uniqueId="1" whenCreated="2023-04-15T12:09:02-0400" creator="x" siteName="y" siteUniqueId="2" lastLanguage="" numberOfForms="1">
        <form name="f" lastModified="never" whoLastModifiedName="" whoLastModifiedRole="" whenCreated="7" hasErrors="true" hasWarnings="garbage" locked="false" user="" dateTimeChanged="" formTitle="T" formIndex="3" formGroup="" formState="In-Work">
            <state value="form.state.in.work" signer="S" signerUniqueId="11" dateSigned="" />
        </form>
    </patient>
</export_from_vision_EDC>"#;

    let result = parse_subject_native_string(xml).expect("Should parse successfully");
    let patient = &result.patients[0];
    assert!(patient.when_created.is_some(), "T-form datetime should parse");
    assert!(patient.last_language.is_none());
    let forms = patient.forms.as_ref().unwrap();
    let form = &forms[0];
    assert!(
        form.last_modified.is_none(),
        "Unparsable optional lastModified should degrade to None"
    );
    assert!(form.who_last_modified_name.is_none());
    assert_eq!(form.when_created, 7);
    assert!(form.has_errors);
    assert!(!form.has_warnings, "Non-true boolean text should read as false");
    assert_eq!(form.form_index, 3);
    assert!(form.form_group.is_none());
    let states = form.states.as_ref().unwrap();
    assert!(
        states[0].date_signed.is_none(),
        "Blank dateSigned should be None"
    );
}

#[test]
fn test_entry_id_alias_and_self_closed_leaves() {
    let xml = r#"<export_from_vision_EDC>
    <patient patientId="TEST-009" uniqueId="1" whenCreated="2023-04-15T16:09:02Z" creator="x" siteName="y" siteUniqueId="2" lastLanguage="" numberOfForms="1">
        <form name="f" lastModified="" whoLastModifiedName="" whoLastModifiedRole="" whenCreated="1" hasErrors="false" hasWarnings="false" locked="false" user="" dateTimeChanged="" formTitle="T" formIndex="1" formGroup="" formState="In-Work">
            <category name="c" type="normal" highestIndex="0">
                <field name="fld" type="text" dataType="string" errorCode="valid" whenCreated="" keepHistory="true">
                    <entry entryId="42">
                        <value by="A" byUniqueId="" role="R" when="2023-04-15 12:09:02 -0400"/>
                        <reason by="B" byUniqueId="9" role="S" when=""/>
                    </entry>
                </field>
            </category>
        </form>
    </patient>
</export_from_vision_EDC>"#;

    let result = parse_subject_native_string(xml).expect("Should parse successfully");
    let patient = &result.patients[0];
    let forms = patient.forms.as_ref().unwrap();
    let categories = forms[0].categories.as_ref().unwrap();
    let fields = categories[0].fields.as_ref().unwrap();
    let entries = fields[0].entries.as_ref().unwrap();
    assert_eq!(entries.len(), 1);
    assert_eq!(
        entries[0].entry_id, "42",
        "The entryId alias should supply the id where id is absent"
    );

    let value = entries[0].value.as_ref().expect("Self-closed value should attach");
    assert_eq!(value.by, "A");
    assert!(value.by_unique_id.is_none());
    assert_eq!(value.value, "", "A self-closed value carries no body text");
    assert!(value.when.is_some());

    let reason = entries[0].reason.as_ref().expect("Self-closed reason should attach");
    assert_eq!(reason.by, "B");
    assert_eq!(reason.by_unique_id, Some("9".to_string()));
    assert!(reason.when.is_none());
}

#[test]
fn test_new_patient_clears_earlier_accumulators() {
    let xml = r#"<export_from_vision_EDC>
    <patient patientId="FIRST" uniqueId="1" whenCreated="" creator="x" siteName="y" siteUniqueId="2" lastLanguage="" numberOfForms="1">
        <form name="f1" lastModified="" whoLastModifiedName="" whoLastModifiedRole="" whenCreated="1" hasErrors="false" hasWarnings="false" locked="false" user="" dateTimeChanged="" formTitle="T1" formIndex="1" formGroup="" formState="In-Work">
        </form>
    </patient>
    <patient patientId="SECOND" uniqueId="3" whenCreated="" creator="x" siteName="y" siteUniqueId="2" lastLanguage="" numberOfForms="0">
    </patient>
</export_from_vision_EDC>"#;

    let result = parse_subject_native_string(xml).expect("Should parse successfully");
    assert_eq!(result.patients.len(), 2);
    assert_eq!(result.patients[0].patient_id, "FIRST");
    assert_eq!(result.patients[0].forms.as_ref().unwrap().len(), 1);
    assert_eq!(result.patients[1].patient_id, "SECOND");
    assert!(
        result.patients[1].forms.is_none(),
        "An earlier patient's forms must not leak into the next"
    );
}

#[test]
fn test_entity_reference_in_value_text_is_kept_raw() {
    let xml = r#"<export_from_vision_EDC>
    <patient patientId="TEST-010" uniqueId="1" whenCreated="" creator="x" siteName="y" siteUniqueId="2" lastLanguage="" numberOfForms="1">
        <form name="f" lastModified="" whoLastModifiedName="" whoLastModifiedRole="" whenCreated="1" hasErrors="false" hasWarnings="false" locked="false" user="" dateTimeChanged="" formTitle="T" formIndex="1" formGroup="" formState="In-Work">
            <category name="c" type="normal" highestIndex="0">
                <field name="fld" type="text" dataType="string" errorCode="valid" whenCreated="" keepHistory="true">
                    <entry id="1">
                        <value by="A" byUniqueId="" role="R" when="" xml:space="preserve">Smith &amp; Jones</value>
                    </entry>
                </field>
            </category>
        </form>
    </patient>
</export_from_vision_EDC>"#;

    let result = parse_subject_native_string(xml).expect("Should parse successfully");
    let patient = &result.patients[0];
    let forms = patient.forms.as_ref().unwrap();
    let categories = forms[0].categories.as_ref().unwrap();
    let fields = categories[0].fields.as_ref().unwrap();
    let entries = fields[0].entries.as_ref().unwrap();
    let value = entries[0].value.as_ref().unwrap();
    assert!(
        value.value.contains("&amp;"),
        "The reference should stay in its raw written form: {:?}",
        value.value
    );
    assert!(value.value.starts_with("Smith"));
    assert!(value.value.ends_with("Jones"));
}

#[test]
fn test_comment_id_alias() {
    let xml = r#"<export_from_vision_EDC>
    <patient patientId="TEST-011" uniqueId="1" whenCreated="" creator="x" siteName="y" siteUniqueId="2" lastLanguage="" numberOfForms="1">
        <form name="f" lastModified="" whoLastModifiedName="" whoLastModifiedRole="" whenCreated="1" hasErrors="false" hasWarnings="false" locked="false" user="" dateTimeChanged="" formTitle="T" formIndex="1" formGroup="" formState="In-Work">
            <category name="c" type="normal" highestIndex="0">
                <field name="fld" type="text" dataType="string" errorCode="valid" whenCreated="" keepHistory="true">
                    <comment commentId="c-7">
                        <value by="A" byUniqueId="" role="R" when="" xml:space="preserve">Alias comment</value>
                    </comment>
                    <comment id="3" commentId="ignored">
                        <value by="B" byUniqueId="" role="S" when="" xml:space="preserve">Direct comment</value>
                    </comment>
                </field>
            </category>
        </form>
    </patient>
</export_from_vision_EDC>"#;

    let result = parse_subject_native_string(xml).expect("Should parse successfully");
    let patient = &result.patients[0];
    let forms = patient.forms.as_ref().unwrap();
    let categories = forms[0].categories.as_ref().unwrap();
    let fields = categories[0].fields.as_ref().unwrap();
    let comments = fields[0].comments.as_ref().unwrap();
    assert_eq!(comments.len(), 2);
    assert_eq!(
        comments[0].comment_id, "c-7",
        "The commentId alias should supply the id where id is absent"
    );
    assert_eq!(comments[0].value.as_ref().unwrap().value, "Alias comment");
    assert_eq!(
        comments[1].comment_id, "3",
        "A present id should win over the alias"
    );
    assert_eq!(comments[1].value.as_ref().unwrap().value, "Direct comment");
}
