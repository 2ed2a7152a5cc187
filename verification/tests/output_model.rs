use bp3d_build::output::{Output, OutputKind, OutputList};

#[test]
fn output_name_is_the_logical_name_for_every_kind() {
    assert_eq!(Output::Bin("tool".to_string()).name(), "tool");
    assert_eq!(Output::Lib("net".to_string()).name(), "net");
    assert_eq!(Output::Config("conf/app.toml".to_string()).name(), "conf/app.toml");
    assert_eq!(Output::Other("README".to_string()).name(), "README");
}

#[test]
fn output_kind_matches_the_variant() {
    assert_eq!(Output::Bin("a".to_string()).kind(), OutputKind::Bin);
    assert_eq!(Output::Lib("a".to_string()).kind(), OutputKind::Lib);
    assert_eq!(Output::Config("a".to_string()).kind(), OutputKind::Config);
    assert_eq!(Output::Other("a".to_string()).kind(), OutputKind::Other);
    assert!(Output::Lib("a".to_string()).is_lib());
    assert!(!Output::Bin("a".to_string()).is_lib());
}

#[test]
fn output_list_keeps_the_order_of_reports() {
    let mut list = OutputList::new();
    list.add_target_path("target/debug".to_string());
    list.add_bin("a".to_string());
    list.add_lib("b".to_string());
    list.add_config("c".to_string());
    list.add_other("d".to_string());
    assert_eq!(
        list.as_ref(),
        &vec![
            Output::Bin("a".to_string()),
            Output::Lib("b".to_string()),
            Output::Config("c".to_string()),
            Output::Other("d".to_string()),
        ]
    );
    let entries = list.iter();
    assert_eq!(entries.len(), 1);
    assert_eq!(entries[0].path, "target/debug");
    assert_eq!(entries[0].outputs.len(), 4);
}
