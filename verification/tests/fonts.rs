use std::path::PathBuf;
use std::sync::Arc;

use font_renderer::context::FontContext;
use font_renderer::face::{pathname_is_valid, FaceReply, FontDescriptor};

fn context() -> FontContext<u32, u64> {
    match FontContext::new(0) {
        Ok(context) => context,
        Err(()) => panic!("initialization succeeded"),
    }
}

fn opened(face: u64) -> Option<FaceReply<u64>> {
    Some(FaceReply { error: 0, face: Some(face) })
}

fn data() -> Arc<Vec<u8>> {
    Arc::new(vec![0x4f, 0x54, 0x54, 0x4f])
}

fn face_of(context: &FontContext<u32, u64>, key: u32) -> Option<u64> {
    context.get_char_index(&key, 'a').map(|question| *question.0)
}

#[test]
fn new_context_has_no_fonts() {
    let context = context();
    assert!(!context.is_loaded(&0));
    assert!(context.get_char_index(&0, 'a').is_none());
}

#[test]
fn new_context_reports_initialization_error() {
    assert!(FontContext::<u32, u64>::new(7).is_err());
    assert!(FontContext::<u32, u64>::new(-1).is_err());
}

#[test]
fn memory_face_request_carries_data_and_index() {
    let context = context();
    let bytes = data();
    match context.memory_face_request(&1, &bytes, 3) {
        None => panic!("the font is not loaded"),
        Some(request) => {
            assert!(Arc::ptr_eq(request.bytes, &bytes));
            assert_eq!(request.size, 4);
            assert_eq!(request.face_index, 3);
        },
    }
    match context.memory_face_request(&1, &bytes, u32::MAX) {
        None => panic!("the font is not loaded"),
        Some(request) => assert_eq!(request.face_index, 4294967295),
    }
}

#[test]
fn font_is_added_from_memory() {
    let mut context = context();
    let bytes = data();
    assert_eq!(context.add_font_from_memory(&1, bytes.clone(), opened(100)), Ok(()));
    assert!(context.is_loaded(&1));
    assert_eq!(face_of(&context, 1), Some(100));
    assert!(context.memory_face_request(&1, &bytes, 0).is_none());
    assert_eq!(Arc::strong_count(&bytes), 2);
}

#[test]
fn second_font_with_same_key_is_ignored() {
    let mut context = context();
    assert_eq!(context.add_font_from_memory(&1, data(), opened(100)), Ok(()));
    assert_eq!(context.add_font_from_memory(&1, data(), opened(200)), Ok(()));
    assert_eq!(context.add_font_from_memory(&1, data(), None), Ok(()));
    assert_eq!(context.add_native_font(&1, opened(300)), Ok(()));
    assert_eq!(
        context.add_native_font(&1, Some(FaceReply { error: 2, face: None })),
        Ok(()),
    );
    assert_eq!(face_of(&context, 1), Some(100));
}

#[test]
fn font_that_does_not_open_is_not_added() {
    let mut context = context();
    let bytes = data();
    let failed = Some(FaceReply { error: 2, face: None });
    assert_eq!(context.add_font_from_memory(&1, bytes.clone(), failed), Err(()));
    let no_face = Some(FaceReply { error: 0, face: None });
    assert_eq!(context.add_font_from_memory(&1, bytes.clone(), no_face), Err(()));
    let stray_face = Some(FaceReply { error: 2, face: Some(5) });
    assert_eq!(context.add_font_from_memory(&1, bytes.clone(), stray_face), Err(()));
    assert_eq!(context.add_font_from_memory(&1, bytes.clone(), None), Err(()));
    assert!(!context.is_loaded(&1));
    assert_eq!(Arc::strong_count(&bytes), 1);
}

#[test]
fn deleting_font_unloads_it_and_lets_data_go() {
    let mut context = context();
    let bytes = data();
    assert_eq!(context.add_font_from_memory(&1, bytes.clone(), opened(100)), Ok(()));
    assert_eq!(context.add_font_from_memory(&2, data(), opened(200)), Ok(()));
    context.delete_font(&1);
    assert!(!context.is_loaded(&1));
    assert_eq!(Arc::strong_count(&bytes), 1);
    assert_eq!(face_of(&context, 2), Some(200));
    assert_eq!(context.add_font_from_memory(&1, bytes, opened(300)), Ok(()));
    assert_eq!(face_of(&context, 1), Some(300));
}

#[test]
fn deleting_unknown_font_does_nothing() {
    let mut context = context();
    assert_eq!(context.add_native_font(&2, opened(200)), Ok(()));
    context.delete_font(&1);
    assert!(!context.is_loaded(&1));
    assert_eq!(face_of(&context, 2), Some(200));
}

#[test]
fn handle_is_dropped_with_font() {
    let mut context: FontContext<u32, Arc<u8>> = match FontContext::new(0) {
        Ok(context) => context,
        Err(()) => panic!("initialization succeeded"),
    };
    let handle = Arc::new(9);
    let reply = Some(FaceReply { error: 0, face: Some(handle.clone()) });
    assert_eq!(context.add_native_font(&1, reply), Ok(()));
    assert_eq!(Arc::strong_count(&handle), 2);
    let reply = Some(FaceReply { error: 0, face: Some(handle.clone()) });
    assert_eq!(context.add_native_font(&1, reply), Ok(()));
    assert_eq!(Arc::strong_count(&handle), 2);
    context.delete_font(&1);
    assert_eq!(Arc::strong_count(&handle), 1);
}

#[test]
fn descriptor_holds_path_and_index() {
    let descriptor = FontDescriptor::new(PathBuf::from("/fonts/a.ttc"), 2);
    assert_eq!(descriptor.pathname, PathBuf::from("/fonts/a.ttc"));
    assert_eq!(descriptor.index, 2);
}

#[test]
fn native_face_request_ends_path_with_zero() {
    let context = context();
    let descriptor = FontDescriptor::new(PathBuf::from("/a"), 2);
    match context.native_face_request(&1, &descriptor, b"/a") {
        None => panic!("the font is not loaded"),
        Some(request) => {
            assert_eq!(request.pathname, vec![b'/', b'a', 0]);
            assert_eq!(request.face_index, 2);
        },
    }
    match context.native_face_request(&1, &descriptor, b"") {
        None => panic!("the font is not loaded"),
        Some(request) => assert_eq!(request.pathname, vec![0]),
    }
}

#[test]
fn native_font_is_added_and_not_asked_for_again() {
    let mut context = context();
    assert_eq!(context.add_native_font(&1, opened(100)), Ok(()));
    assert_eq!(face_of(&context, 1), Some(100));
    let descriptor = FontDescriptor::new(PathBuf::from("/a"), 0);
    assert!(context.native_face_request(&1, &descriptor, b"/a\0b").is_none());
}

#[test]
fn path_with_zero_byte_is_not_valid() {
    assert!(pathname_is_valid(b"/fonts/a.ttf"));
    assert!(pathname_is_valid(b""));
    assert!(!pathname_is_valid(b"/fonts\0/a.ttf"));
    assert!(!pathname_is_valid(b"\0"));
    assert!(!pathname_is_valid(b"/a\0"));
}

#[test]
fn char_index_question_names_face_and_code() {
    let mut context = context();
    assert_eq!(context.add_native_font(&1, opened(100)), Ok(()));
    assert_eq!(context.get_char_index(&1, 'A'), Some((&100, 0x41)));
    assert_eq!(context.get_char_index(&1, '\u{1f600}'), Some((&100, 0x1f600)));
    assert_eq!(context.get_char_index(&2, 'A'), None);
}

#[test]
fn other_key_types_work() {
    let mut context: FontContext<String, u64> = match FontContext::new(0) {
        Ok(context) => context,
        Err(()) => panic!("initialization succeeded"),
    };
    assert_eq!(context.add_native_font(&String::from("serif"), opened(1)), Ok(()));
    assert!(context.is_loaded(&String::from("serif")));
    assert!(!context.is_loaded(&String::from("sans")));
}

#[test]
fn order_of_adding_does_not_matter() {
    let mut forwards = context();
    assert_eq!(forwards.add_font_from_memory(&1, data(), opened(100)), Ok(()));
    assert_eq!(forwards.add_native_font(&2, opened(200)), Ok(()));
    let mut backwards = context();
    assert_eq!(backwards.add_native_font(&2, opened(200)), Ok(()));
    assert_eq!(backwards.add_font_from_memory(&1, data(), opened(100)), Ok(()));
    assert_eq!(face_of(&forwards, 1), face_of(&backwards, 1));
    assert_eq!(face_of(&forwards, 2), face_of(&backwards, 2));
    assert_eq!(face_of(&forwards, 1), Some(100));
    assert_eq!(face_of(&forwards, 2), Some(200));
}
