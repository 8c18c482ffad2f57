use std::sync::Arc;
use turn_render::math_document::{AcademicMetadata, ContentMetadata, TocNode};
use turn_render::math_node::{MathNode, MathNodeContent};
use turn_render::second_order_math_node::LogicalNode;
use turn_render::section_node::{
    add_default_rendering_warning, schema_document_id, schema_section_id, schema_title,
};

fn pair(a: &str, b: &str) -> (String, String) {
    (a.to_string(), b.to_string())
}

#[test]
fn default_rendering_warning_is_added_after_what_is_there() {
    let mut metadata = vec![pair("level", "L1"), pair("warning", "earlier")];
    add_default_rendering_warning(&mut metadata);
    assert_eq!(
        metadata,
        vec![
            pair("level", "L1"),
            pair("warning", "earlier"),
            pair("warning", "Default L1 schema rendering used"),
        ]
    );
}

#[test]
fn default_rendering_warning_on_empty_metadata_stands_alone() {
    let mut metadata = vec![];
    add_default_rendering_warning(&mut metadata);
    assert_eq!(metadata, vec![pair("warning", "Default L1 schema rendering used")]);
}

#[test]
fn schema_ids_extend_the_prefix() {
    assert_eq!(schema_section_id("group"), "group-main");
    assert_eq!(schema_document_id("group"), "group-l1-doc");
    assert_eq!(schema_section_id(""), "-main");
    assert_eq!(schema_document_id(""), "-l1-doc");
    assert_eq!(schema_section_id("a-main"), "a-main-main");
}

#[test]
fn schema_title_joins_the_segments_or_falls_back() {
    assert_eq!(schema_title(None), "Schema Document");
    assert_eq!(schema_title(Some(&vec![])), "");
    let parts = vec!["Group ".to_string(), String::new(), "Theory".to_string(), " ∘".to_string()];
    assert_eq!(schema_title(Some(&parts)), "Group Theory ∘");
    assert_eq!(schema_title(Some(&vec!["One".to_string()])), "One");
}

#[test]
fn schema_metadata_defaults() {
    assert_eq!(
        ContentMetadata::schema_default(),
        ContentMetadata {
            language: Some("en-US".to_string()),
            version: Some("1.0".to_string()),
            created_at: None,
            last_modified: None,
            content_hash: None,
        }
    );
    assert_eq!(
        AcademicMetadata::unpublished(),
        AcademicMetadata {
            authors: vec![],
            date_published: None,
            date_modified: None,
            venue: None,
            doi: None,
            keywords: vec![],
        }
    );
}

fn toc(title: &str, children: Vec<TocNode>) -> TocNode {
    TocNode { title: title.to_string(), target_id: format!("#{title}"), children }
}

#[test]
fn table_of_contents_is_copied_whole() {
    let tree = toc(
        "Book",
        vec![
            toc("Part I", vec![toc("Chapter 1", vec![]), toc("Chapter 2", vec![toc("2.1", vec![])])]),
            toc("Part II", vec![]),
        ],
    );
    let copy = tree.clone();
    assert_eq!(copy, tree);
    assert_eq!(copy.children[0].children[1].children[0].title, "2.1");
    assert_eq!(copy.children[0].children[1].children[0].target_id, "#2.1");
    assert_eq!(toc("Leaf", vec![]).clone(), toc("Leaf", vec![]));
}

#[test]
fn logical_statement_is_copied_whole() {
    let atom = |id: &str| LogicalNode::Atomic(MathNode::string(id.to_string()));
    let statement = LogicalNode::And(vec![
        atom("p"),
        LogicalNode::Or(vec![atom("q"), LogicalNode::True, LogicalNode::And(vec![])]),
        LogicalNode::False,
    ]);
    assert_eq!(statement.clone(), statement);
    assert_eq!(LogicalNode::True.clone(), LogicalNode::True);
    assert_ne!(statement.clone(), LogicalNode::And(vec![atom("p")]));
}

#[test]
fn a_cloned_node_shares_its_content() {
    let tree = MathNode {
        id: "n".to_string(),
        content: Arc::new(MathNodeContent::Not(Arc::new(MathNode::string("p".to_string())))),
    };
    let copy = tree.clone();
    assert_eq!(copy, tree);
    assert!(Arc::ptr_eq(&copy.content, &tree.content));
}
