use cargo_image_runner::metadata::{default_config, Value};
use cargo_image_runner::BootType;

#[test]
fn test_value_from_str() {
    let tr: Value = "true".into();
    let fl: Value = "false".into();
    let other: Value = "other".into();
    assert_eq!(tr, Value::Bool(true));
    assert_eq!(fl, Value::Bool(false));
    assert_eq!(other, Value::String("other".to_string()))
}

#[test]
fn parse_pairs() {
    assert_eq!(
        Value::parse_pair("boot-type=uefi"),
        ("boot-type".to_string(), Value::String("uefi".to_string()))
    );
    assert_eq!(Value::parse_pair("debug"), ("debug".to_string(), Value::Bool(true)));
    assert_eq!(Value::parse_pair("flag=false"), ("flag".to_string(), Value::Bool(false)));
    assert_eq!(
        Value::parse_pair("a=b=c"),
        ("a".to_string(), Value::String("b=c".to_string()))
    );
    assert_eq!(Value::parse_pair("=x"), (String::new(), Value::String("x".to_string())));
}

#[test]
fn value_as_string() {
    assert_eq!(Value::String("x".to_string()).as_string(), Ok("x".to_string()));
    assert_eq!(Value::Bool(true).as_string(), Err(()));
}

#[test]
fn default_package_metadata() {
    let m = default_config().image_runner;
    assert_eq!(m.config_file, "limine.conf");
    assert_eq!(m.limine_branch, "v8.x-binary");
    assert_eq!(m.run_command, vec!["qemu-system-x86_64", "-cdrom", "{}"]);
    assert_eq!(m.test_success_exit_code, 33);
    assert_eq!(m.boot_type, BootType::Bios);
    assert!(m.vars.is_empty());
}
