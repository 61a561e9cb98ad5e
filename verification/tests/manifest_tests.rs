//! End-to-end parses of a whole manifest document.

use imscc_manifest::item_type::ItemType;
use imscc_manifest::parse::parse;
use imscc_manifest::types::Manifest;
use imscc_manifest::types::ParseError;

fn parse_complete(xml: &str) -> Manifest {
    let outcome = parse(xml.as_bytes()).expect("parse must succeed");
    assert!(!outcome.truncated, "stream must not fault");
    outcome.manifest
}

#[test]
fn parses_general() {
    let manifest = parse_complete(xml_string());
    assert_eq!(manifest.general.title, "A Course");
    assert_eq!(manifest.general.description, "test this course");
    assert_eq!(manifest.general.copyright, "Private");
}

#[test]
fn parses_modules() {
    let manifest = parse_complete(xml_string());
    assert_eq!(manifest.modules.len(), 2);
    assert!(
        manifest
            .modules
            .iter()
            .any(|module| module.title == "Mod Testing" || module.title == "Module 1")
    );
}

#[test]
fn parses_resources() {
    let manifest = parse_complete(xml_string());
    assert_eq!(manifest.resources.len(), 9);
}

#[test]
fn end_to_end_fixture() {
    let manifest = parse_complete(xml_string());
    assert_eq!(manifest.general.title, "A Course");
    assert_eq!(manifest.general.description, "test this course");
    assert_eq!(manifest.general.copyright, "Private");
    assert_eq!(manifest.modules.len(), 2);
    assert_eq!(manifest.resources.len(), 9);

    let first = &manifest.modules[0];
    assert_eq!(first.title, "Mod Testing");
    assert_eq!(first.items.len(), 1);
    assert_eq!(first.items[0].title, "mod debug");
    // Its reference points at no declared resource: resolution yields
    // NoType rather than an error.
    assert_eq!(first.items[0].item_type, ItemType::NoType);

    let second = &manifest.modules[1];
    assert_eq!(second.title, "Module 1");
    assert_eq!(second.items.len(), 2);
    assert_eq!(second.items[0].title, "Assignment 1");
    assert_eq!(second.items[0].item_type, ItemType::Assignment);
    assert_eq!(second.items[1].title, "Quiz 1");
    assert_eq!(second.items[1].item_type, ItemType::Assessment);
}

#[test]
fn modules_and_items_keep_document_order() {
    let manifest = parse_complete(xml_string());
    let module_titles: Vec<&str> =
        manifest.modules.iter().map(|m| m.title.as_str()).collect();
    assert_eq!(module_titles, vec!["Mod Testing", "Module 1"]);
    let item_titles: Vec<&str> =
        manifest.modules[1].items.iter().map(|i| i.title.as_str()).collect();
    assert_eq!(item_titles, vec!["Assignment 1", "Quiz 1"]);
}

#[test]
fn items_without_identifierref_are_excluded() {
    // Three sub-items, of which two declare a non-empty identifierref:
    // the finalized module holds exactly those two, in order.
    let xml = r#"<?xml version="1.0" encoding="UTF-8"?>
<manifest identifier="m1">
  <organizations>
    <organization identifier="org_1">
      <item identifier="root">
        <item identifier="mod1">
          <title>Only Module</title>
          <item identifier="a" identifierref="r1">
            <title>First</title>
          </item>
          <item identifier="b">
            <title>Organizational Only</title>
          </item>
          <item identifier="c" identifierref="r2">
            <title>Second</title>
          </item>
        </item>
      </item>
    </organization>
  </organizations>
  <resources>
    <resource identifier="r1" type="webcontent" href="a.html"/>
    <resource identifier="r2" type="imsdt_xmlv1p1"/>
  </resources>
</manifest>"#;
    let manifest = parse_complete(xml);
    assert_eq!(manifest.modules.len(), 1);
    let module = &manifest.modules[0];
    assert_eq!(module.items.len(), 2);
    assert_eq!(module.items[0].title, "First");
    assert_eq!(module.items[0].item_type, ItemType::WebContent);
    assert_eq!(module.items[1].title, "Second");
    assert_eq!(module.items[1].item_type, ItemType::DiscussionTopic);
}

#[test]
fn resource_without_identifier_is_fatal() {
    let xml = r#"<?xml version="1.0" encoding="UTF-8"?>
<manifest identifier="m1">
  <resources>
    <resource type="webcontent" href="a.html"/>
  </resources>
</manifest>"#;
    let result = parse(xml.as_bytes());
    assert_eq!(result.unwrap_err(), ParseError::MissingResourceIdentifier);
}

#[test]
fn duplicate_resource_identifier_last_wins() {
    let xml = r#"<?xml version="1.0" encoding="UTF-8"?>
<manifest identifier="m1">
  <organizations>
    <organization identifier="org_1">
      <item identifier="root">
        <item identifier="mod1">
          <title>Only Module</title>
          <item identifier="a" identifierref="dup">
            <title>Leaf</title>
          </item>
        </item>
      </item>
    </organization>
  </organizations>
  <resources>
    <resource identifier="dup" type="webcontent"/>
    <resource identifier="dup" type="imsdt_xmlv1p1"/>
  </resources>
</manifest>"#;
    let manifest = parse_complete(xml);
    // Only one registry entry stays, and the item resolves to the most
    // recently registered resource's type.
    assert_eq!(manifest.resources.len(), 1);
    assert_eq!(manifest.resources[0].item_type, ItemType::DiscussionTopic);
    assert_eq!(manifest.modules[0].items[0].item_type, ItemType::DiscussionTopic);
}

#[test]
fn malformed_markup_truncates_and_keeps_accumulated_state() {
    // The document collapses after the first module title: the parse
    // reports the fault and still hands back what was accumulated.
    let xml = r#"<?xml version="1.0" encoding="UTF-8"?>
<manifest identifier="m1">
  <organizations>
    <organization identifier="org_1">
      <item identifier="root">
        <item identifier="mod1">
          <title>Partial Module</title>
        </item>
      </item>
    </organization>
  </organizations>
  <resources>
    <resource identifier="r1" type="webcontent"/>
  <<<not-xml"#;
    let outcome = parse(xml.as_bytes()).expect("stream faults are not fatal");
    assert!(outcome.truncated);
    let manifest = outcome.manifest;
    assert_eq!(manifest.modules.len(), 1);
    assert_eq!(manifest.modules[0].title, "Partial Module");
    assert_eq!(manifest.resources.len(), 1);
}

#[test]
fn missing_sections_yield_empty_defaults() {
    let xml = r#"<?xml version="1.0" encoding="UTF-8"?>
<manifest identifier="m1"/>"#;
    let manifest = parse_complete(xml);
    assert_eq!(manifest.general.title, "");
    assert_eq!(manifest.general.description, "");
    assert_eq!(manifest.general.copyright, "");
    assert_eq!(manifest.modules.len(), 0);
    assert_eq!(manifest.resources.len(), 0);
}

fn xml_string<'a>() -> &'a str {
    r#"<?xml version="1.0" encoding="UTF-8"?>
        <manifest identifier="i3ebf4e9fe673c98a2e10715ec293b6bf" xmlns="http://www.imsglobal.org/xsd/imsccv1p1/imscp_v1p1" xmlns:lom="http://ltsc.ieee.org/xsd/imsccv1p1/LOM/resource" xmlns:lomimscc="http://ltsc.ieee.org/xsd/imsccv1p1/LOM/manifest">
          <metadata>
            <schema>IMS Common Cartridge</schema>
            <schemaversion>1.1.0</schemaversion>
            <lomimscc:lom>
              <lomimscc:general>
                <lomimscc:title>
                  <lomimscc:string>A Course</lomimscc:string>
                </lomimscc:title>
                <lomimscc:description>
                  <lomimscc:string>test this course</lomimscc:string>
                </lomimscc:description>
              </lomimscc:general>
              <lomimscc:lifeCycle>
                <lomimscc:contribute>
                  <lomimscc:date>
                    <lomimscc:dateTime>2016-03-15</lomimscc:dateTime>
                  </lomimscc:date>
                </lomimscc:contribute>
              </lomimscc:lifeCycle>
              <lomimscc:rights>
                <lomimscc:copyrightAndOtherRestrictions>
                  <lomimscc:value>yes</lomimscc:value>
                </lomimscc:copyrightAndOtherRestrictions>
                <lomimscc:description>
                  <lomimscc:string>Private</lomimscc:string>
                </lomimscc:description>
              </lomimscc:rights>
            </lomimscc:lom>
          </metadata>
          <organizations>
            <organization identifier="org_1" structure="rooted-hierarchy">
              <item identifier="LearningModules">
                <item identifier="id7d0efe702450aa5e9e1664dfeaa94ee">
                  <title>Mod Testing</title>
                  <item identifier="ib3ace830fa129c9d1c24702eebf3ebb4" identifierref="ib81691c293cfcd8474622cfd8c0047f5">
                    <title>mod debug</title>
                  </item>
                </item>
                <item identifier="i1ca3ec3f790e6285369f267c1be1a022">
                  <title>Module 1</title>
                  <item identifier="i6760f3c4e14f35246d3c1b0cdab71787" identifierref="i86ed42b01897fba5a7126d18558fd7a8">
                    <title>Assignment 1</title>
                  </item>
                  <item identifier="i922878463b7905cdaec01dc3883cc08d" identifierref="i5ae2ebabbdca02262357c21db54aec9b">
                    <title>Quiz 1</title>
                  </item>
                </item>
              </item>
            </organization>
          </organizations>
          <resources>
            <resource identifier="i5e0d8279664539be677db96c71643966_syllabus" type="associatedcontent/imscc_xmlv1p1/learning-application-resource" href="course_settings/syllabus.html" intendeduse="syllabus">
              <file href="course_settings/syllabus.html"/>
            </resource>
            <resource identifier="i5e0d8279664539be677db96c71643966" type="associatedcontent/imscc_xmlv1p1/learning-application-resource" href="course_settings/canvas_export.txt">
              <file href="course_settings/course_settings.xml"/>
              <file href="course_settings/module_meta.xml"/>
              <file href="course_settings/assignment_groups.xml"/>
              <file href="course_settings/grading_standards.xml"/>
              <file href="course_settings/rubrics.xml"/>
              <file href="course_settings/learning_outcomes.xml"/>
              <file href="course_settings/files_meta.xml"/>
              <file href="course_settings/events.xml"/>
              <file href="course_settings/media_tracks.xml"/>
              <file href="course_settings/canvas_export.txt"/>
            </resource>
            <resource identifier="ia88f49c25e1b684e311b2ff3da9c3780" type="webcontent" href="wiki_content/front-page.html">
              <file href="wiki_content/front-page.html"/>
            </resource>
            <resource identifier="iadc3bb46492a88f5dec93121538151df" type="webcontent" href="wiki_content/page-hidden-from-students.html">
              <file href="wiki_content/page-hidden-from-students.html"/>
            </resource>
            <resource identifier="i86ed42b01897fba5a7126d18558fd7a8" type="associatedcontent/imscc_xmlv1p1/learning-application-resource" href="i86ed42b01897fba5a7126d18558fd7a8/assignment-1.html">
              <file href="i86ed42b01897fba5a7126d18558fd7a8/assignment-1.html"/>
              <file href="i86ed42b01897fba5a7126d18558fd7a8/assignment_settings.xml"/>
            </resource>
            <resource identifier="id05f7ff3bfefb887478eed302e9e7577" type="imsdt_xmlv1p1">
              <file href="id05f7ff3bfefb887478eed302e9e7577.xml"/>
              <dependency identifierref="id7e712a7065dd41d746846c5898bd9d3"/>
            </resource>
            <resource identifier="id7e712a7065dd41d746846c5898bd9d3" type="associatedcontent/imscc_xmlv1p1/learning-application-resource" href="id7e712a7065dd41d746846c5898bd9d3.xml">
              <file href="id7e712a7065dd41d746846c5898bd9d3.xml"/>
            </resource>
            <resource identifier="i5ae2ebabbdca02262357c21db54aec9b" type="imsqti_xmlv1p2/imscc_xmlv1p1/assessment">
              <file href="i5ae2ebabbdca02262357c21db54aec9b/assessment_qti.xml"/>
              <dependency identifierref="iac561ca66d48400a9f8fd25c86454d4b"/>
            </resource>
            <resource identifier="iac561ca66d48400a9f8fd25c86454d4b" type="associatedcontent/imscc_xmlv1p1/learning-application-resource" href="i5ae2ebabbdca02262357c21db54aec9b/assessment_meta.xml">
              <file href="i5ae2ebabbdca02262357c21db54aec9b/assessment_meta.xml"/>
              <file href="non_cc_assessments/i5ae2ebabbdca02262357c21db54aec9b.xml.qti"/>
            </resource>
          </resources>
        </manifest>"#
}
