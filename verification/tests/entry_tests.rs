use crust::entry::crust_entry_point;

#[test]
fn entry_forwards_count_and_vector_verbatim() {
    let argv: Vec<Vec<u8>> = vec![b"prog\0".to_vec(), b"-v\0".to_vec(), b"input\0".to_vec()];
    let expected = argv.clone();
    let status = crust_entry_point(
        |argc: i32, args: &Vec<Vec<u8>>| {
            assert_eq!(argc, 3);
            assert_eq!(args, &expected);
            7
        },
        3,
        &argv,
    );
    assert_eq!(status, 7);
}

#[test]
fn entry_returns_the_application_result_for_many_values() {
    let argv: Vec<Vec<u8>> = vec![b"prog\0".to_vec(), b"a\0".to_vec(), b"b\0".to_vec()];
    let cases: Vec<i32> = vec![0, 1, -1, 7, -128, i32::MAX, i32::MIN];
    for want in cases {
        let status = crust_entry_point(|_argc: i32, _args: &Vec<Vec<u8>>| want, 3, &argv);
        assert_eq!(status, want);
    }
}

#[test]
fn entry_does_not_touch_the_count() {
    let argv: Vec<Vec<u8>> = Vec::new();
    let status = crust_entry_point(|argc: i32, _args: &Vec<Vec<u8>>| argc, -9, &argv);
    assert_eq!(status, -9);
}
