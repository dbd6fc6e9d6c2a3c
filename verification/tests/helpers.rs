use mc_chat_bridge::util::{
    get_chain_char, get_dir_char, launch_program, split_launch_argument, GetSetWrapper,
};

#[test]
fn wrapper_starts_at_default_and_reads_back_what_was_set() {
    let mut w: GetSetWrapper<bool> = GetSetWrapper::new();
    assert!(!w.get());
    w.set(true);
    assert!(w.get());
    let mut c: GetSetWrapper<u64> = GetSetWrapper::new();
    assert_eq!(c.get(), 0);
    c.set(1234);
    assert_eq!(c.get(), 1234);
}

#[test]
fn wrapper_arithmetic() {
    let mut w: GetSetWrapper<i32> = GetSetWrapper::new();
    w.add(5);
    assert_eq!(w.get(), 5);
    w.sub(7);
    assert_eq!(w.get(), -2);
    w.mul(-3);
    assert_eq!(w.get(), 6);
    w.set(-7);
    w.div(2);
    assert_eq!(w.get(), -3);
    w.add(10);
    w.sub(10);
    assert_eq!(w.get(), -3);
}

#[test]
fn separators_by_platform() {
    assert_eq!(get_dir_char("windows"), '\\');
    assert_eq!(get_dir_char("linux"), '/');
    assert_eq!(get_chain_char("windows"), '&');
    assert_eq!(get_chain_char("macos"), ';');
}

#[test]
fn launch_argument_is_split_at_the_last_separator() {
    assert_eq!(
        split_launch_argument("servers/mc/run.sh", '/'),
        ("run.sh".to_string(), "servers/mc".to_string())
    );
    assert_eq!(
        split_launch_argument("C:\\mc\\start.bat", '\\'),
        ("start.bat".to_string(), "C:/mc".to_string())
    );
    assert_eq!(split_launch_argument("run.sh", '/'), ("run.sh".to_string(), String::new()));
    assert_eq!(split_launch_argument("/run.sh", '/'), ("run.sh".to_string(), String::new()));
}

#[test]
fn launch_parts_rejoin_to_the_argument() {
    let (command, directory) = split_launch_argument("C:\\mc\\srv\\go.bat", '\\');
    assert_eq!(format!("{}/{}", directory, command), "C:/mc/srv/go.bat");
}

#[test]
fn launch_program_by_platform() {
    assert_eq!(
        launch_program("windows", "start.bat"),
        ("cmd".to_string(), vec!["/C".to_string(), "start.bat".to_string()])
    );
    assert_eq!(launch_program("linux", "run.sh"), ("sh".to_string(), vec!["run.sh".to_string()]));
}
