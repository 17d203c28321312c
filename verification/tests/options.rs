use async_filelike::options::{Backend, Removal, Setting};
use async_filelike::{unlink, OpenOptions};

#[test]
fn new_options_switch_nothing_on() {
    assert_eq!(OpenOptions::new().to_std(), vec![]);
    assert_eq!(OpenOptions::default().to_std(), vec![]);
}

#[test]
fn every_option_is_handed_over_in_order() {
    let mut options = OpenOptions::new();
    options.security_qos_flags = Some(4);
    options.attributes = Some(3);
    options.custom_flags = Some(0x8000_0001);
    options.share_mode = Some(2);
    options.access_mode = Some(1);
    options.mode = Some(0o644);
    options.create_new = true;
    options.create = true;
    options.truncate = true;
    options.append = true;
    options.write = true;
    options.read = true;
    assert_eq!(
        options.to_std(),
        vec![
            Setting::Read,
            Setting::Write,
            Setting::Append,
            Setting::Truncate,
            Setting::Create,
            Setting::CreateNew,
            Setting::Mode(0o644),
            Setting::AccessMode(1),
            Setting::ShareMode(2),
            Setting::CustomFlags(0x8000_0001),
            Setting::Attributes(3),
            Setting::SecurityQosFlags(4),
        ]
    );
}

#[test]
fn opening_carries_the_path_and_the_settings() {
    let mut options = OpenOptions::new();
    options.write = true;
    options.create = true;
    let opening = options.open("foo.txt", false);
    assert_eq!(opening.path, "foo.txt");
    assert_eq!(opening.settings, vec![Setting::Write, Setting::Create]);
    assert_eq!(opening.backend, Backend::Pool);
    let opening = options.open("bar.txt", true);
    assert_eq!(opening.path, "bar.txt");
    assert_eq!(opening.settings, vec![Setting::Write, Setting::Create]);
    assert_eq!(opening.backend, Backend::Queue);
}

#[test]
fn settings_rebuild_the_options() {
    let mut options = OpenOptions::new();
    options.read = true;
    options.mode = Some(0);
    options.share_mode = Some(9);
    options.security_qos_flags = Some(1);
    let mut rebuilt = OpenOptions::new();
    for setting in options.to_std() {
        match setting {
            Setting::Read => rebuilt.read = true,
            Setting::Write => rebuilt.write = true,
            Setting::Append => rebuilt.append = true,
            Setting::Truncate => rebuilt.truncate = true,
            Setting::Create => rebuilt.create = true,
            Setting::CreateNew => rebuilt.create_new = true,
            Setting::Mode(mode) => rebuilt.mode = Some(mode),
            Setting::AccessMode(mode) => rebuilt.access_mode = Some(mode),
            Setting::ShareMode(mode) => rebuilt.share_mode = Some(mode),
            Setting::CustomFlags(flags) => rebuilt.custom_flags = Some(flags),
            Setting::Attributes(flags) => rebuilt.attributes = Some(flags),
            Setting::SecurityQosFlags(flags) => rebuilt.security_qos_flags = Some(flags),
        }
    }
    assert_eq!(format!("{:?}", rebuilt), format!("{:?}", options));
}

#[test]
fn cloned_options_are_the_same() {
    let mut options = OpenOptions::new();
    options.append = true;
    options.custom_flags = Some(7);
    options.attributes = Some(8);
    assert_eq!(format!("{:?}", options.clone()), format!("{:?}", options));
}

#[test]
fn unlink_tells_directories_from_files() {
    assert!(matches!(unlink("dir", true), Removal::Directory("dir")));
    assert!(matches!(unlink("foo.txt", false), Removal::File("foo.txt")));
}
