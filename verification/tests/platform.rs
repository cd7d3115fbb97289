use pdf_platform::{exit_code, init, ErrorKind};

fn saved_document(path: &str) -> lopdf::Document {
    lopdf::Document::load(path).expect("the saved file parses as a document")
}

fn decoded_operations(doc: &lopdf::Document) -> Vec<lopdf::content::Operation> {
    let pages = doc.get_pages();
    assert_eq!(pages.len(), 1);
    let (_, page_id) = pages.into_iter().next().unwrap();
    let data = doc.get_page_content(page_id);
    lopdf::content::Content::decode(&data).expect("content decodes").operations
}

fn assert_hello_structure(doc: &lopdf::Document) {
    let pages = doc.get_pages();
    assert_eq!(pages.len(), 1);

    let catalog = doc.catalog().expect("catalog");
    let pages_ref = catalog.get(b"Pages").unwrap().as_reference().unwrap();
    let page_tree = doc.get_object(pages_ref).unwrap().as_dict().unwrap();
    assert_eq!(page_tree.get(b"Count").unwrap().as_i64().unwrap(), 1);
    assert_eq!(page_tree.get(b"Kids").unwrap().as_array().unwrap().len(), 1);
    let media_box = page_tree.get(b"MediaBox").unwrap().as_array().unwrap();
    let sizes: Vec<i64> = media_box.iter().map(|o| o.as_i64().unwrap()).collect();
    assert_eq!(sizes, vec![0, 0, 595, 842]);

    let ops = decoded_operations(doc);
    assert_eq!(ops.len(), 5);
    assert_eq!(ops[0].operator, "BT");
    assert!(ops[0].operands.is_empty());
    assert_eq!(ops[1].operator, "Tf");
    assert_eq!(ops[1].operands[0].as_name().unwrap(), b"F1");
    assert_eq!(ops[1].operands[1].as_i64().unwrap(), 48);
    assert_eq!(ops[2].operator, "Td");
    assert_eq!(ops[2].operands[0].as_i64().unwrap(), 100);
    assert_eq!(ops[2].operands[1].as_i64().unwrap(), 600);
    assert_eq!(ops[3].operator, "Tj");
    if let lopdf::Object::String(bytes, _) = &ops[3].operands[0] {
        assert_eq!(bytes.as_slice(), b"Hello World!");
    } else {
        panic!("show-text operand is not a string");
    }
    assert_eq!(ops[4].operator, "ET");
    assert!(ops[4].operands.is_empty());
}

#[test]
fn initialize_then_save_succeeds() {
    let path = "/tmp/pdf_platform_scenario_a.pdf";
    let mut registry = init();
    assert!(!registry.is_initialized());
    registry.initialize();
    assert!(registry.is_initialized());
    let result = registry.save(path);
    assert!(result.is_ok());
    let doc = saved_document(path);
    assert_hello_structure(&doc);
}

#[test]
fn save_before_initialize_is_document_not_found() {
    let path = "/tmp/pdf_platform_scenario_b.pdf";
    let mut registry = init();
    let result = registry.save(path);
    assert_eq!(result, Err(ErrorKind::DocumentNotFound));
    assert!(!registry.is_initialized());
    assert!(lopdf::Document::load(path).is_err(), "no file may be created");
}

#[test]
fn save_to_unwritable_path_is_save_failed() {
    let mut registry = init();
    registry.initialize();
    let result = registry.save("/tmp/pdf_platform_no_such_dir/out.pdf");
    assert_eq!(result, Err(ErrorKind::SaveFailed));
    assert!(registry.is_initialized());
}

#[test]
fn repeated_saves_keep_returning_success() {
    let mut registry = init();
    registry.initialize();
    for i in 0..3 {
        let path = format!("/tmp/pdf_platform_repeat_{}.pdf", i);
        let result = registry.save(&path);
        assert_eq!(result, Ok(()));
    }
}

#[test]
fn two_saves_produce_identical_structure() {
    let first = "/tmp/pdf_platform_twice_1.pdf";
    let second = "/tmp/pdf_platform_twice_2.pdf";
    let mut registry = init();
    registry.initialize();
    assert!(registry.save(first).is_ok());
    assert!(registry.save(second).is_ok());
    let doc_first = saved_document(first);
    let doc_second = saved_document(second);
    assert_hello_structure(&doc_first);
    assert_hello_structure(&doc_second);
    let ops_first = decoded_operations(&doc_first);
    let ops_second = decoded_operations(&doc_second);
    assert_eq!(ops_first.len(), ops_second.len());
    for (a, b) in ops_first.iter().zip(ops_second.iter()) {
        assert_eq!(a.operator, b.operator);
        assert_eq!(a.operands, b.operands);
    }
}

#[test]
fn error_messages_match_the_boundary_strings() {
    assert_eq!(ErrorKind::DocumentNotFound.message(), "DOCUMENT NOT FOUND");
    assert_eq!(ErrorKind::SaveFailed.message(), "ERROR SAVING DOCUMENT");
    assert_eq!(ErrorKind::DoubleInitialize.message(), "expected document to be empty");
}

#[test]
fn exit_code_maps_the_application_result() {
    assert_eq!(exit_code(&Ok(())), 0);
    assert_eq!(exit_code(&Err(7)), 7);
}
