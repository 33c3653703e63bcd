use dust_core::{Model, SaveContents};

#[test]
fn default_model_is_the_lite() {
    assert_eq!(Model::default(), Model::Lite);
}

#[test]
fn existing_contents_have_their_own_length() {
    let contents = SaveContents::Existing(vec![1, 2, 3]);
    assert_eq!(contents.len(), 3);
}

#[test]
fn new_contents_have_the_length_asked_for() {
    assert_eq!(SaveContents::New(0x2000).len(), 0x2000);
    assert_eq!(SaveContents::New(0).len(), 0);
}

#[test]
fn contents_from_bytes_are_existing_contents() {
    let contents = SaveContents::from(vec![9u8, 8, 7]);
    assert!(matches!(contents, SaveContents::Existing(ref data) if data == &vec![9u8, 8, 7]));
}

#[test]
fn get_or_create_hands_back_existing_contents() {
    let data = SaveContents::Existing(vec![4, 5]).get_or_create(|len| vec![0xFF; len]);
    assert_eq!(data, vec![4, 5]);
}

#[test]
fn get_or_create_creates_new_contents_of_the_length() {
    let data = SaveContents::New(3).get_or_create(|len| vec![0xFF; len]);
    assert_eq!(data, vec![0xFF, 0xFF, 0xFF]);
}

#[test]
fn a_copy_of_contents_holds_the_same() {
    let existing = SaveContents::Existing(vec![1, 2, 3]);
    assert!(matches!(existing.clone(), SaveContents::Existing(data) if data == vec![1, 2, 3]));
    assert!(matches!(SaveContents::New(64).clone(), SaveContents::New(64)));
}
