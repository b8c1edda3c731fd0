use passthrough::{Passthrough, PassthroughBuilder};

fn same_config(a: &Passthrough, b: &Passthrough) -> bool {
    a.debug == b.debug
        && a.foreground == b.foreground
        && a.multithreaded == b.multithreaded
        && a.passthrough == b.passthrough
}

#[test]
fn new_uses_default_flags() {
    let fs = Passthrough::new("/tmp/fsdata".to_string());
    assert!(fs.debug);
    assert!(fs.foreground);
    assert!(!fs.multithreaded);
    assert_eq!(fs.passthrough, "/tmp/fsdata");
}

#[test]
fn builder_starts_like_new() {
    let b = PassthroughBuilder::new();
    assert!(b.debug);
    assert!(b.foreground);
    assert!(!b.multithreaded);
}

#[test]
fn setter_order_does_not_matter() {
    let a = Passthrough::options()
        .debug(false)
        .foreground(true)
        .multithreaded(true)
        .build("/tmp/fsdata".to_string());
    let b = Passthrough::options()
        .multithreaded(true)
        .debug(false)
        .foreground(true)
        .build("/tmp/fsdata".to_string());
    let c = Passthrough::options()
        .foreground(true)
        .multithreaded(true)
        .debug(false)
        .build("/tmp/fsdata".to_string());
    assert!(same_config(&a, &b));
    assert!(same_config(&b, &c));
}

#[test]
fn mount_args_with_default_flags() {
    let fs = Passthrough::new("/tmp/fsdata".to_string());
    let args = fs.mount_args("prog", "/tmp/fsmnt");
    assert_eq!(args, vec!["prog", "/tmp/fsmnt", "-d", "-f", "-s"]);
}

#[test]
fn mount_args_multithreaded_background_quiet() {
    let fs = Passthrough::options()
        .debug(false)
        .foreground(false)
        .multithreaded(true)
        .build("/tmp/fsdata".to_string());
    let args = fs.mount_args("prog", "/tmp/fsmnt");
    assert_eq!(args, vec!["prog", "/tmp/fsmnt"]);
}

#[test]
fn mount_args_each_flag_alone() {
    let base = "/tmp/fsdata".to_string();

    let debug_only = Passthrough::options()
        .debug(true)
        .foreground(false)
        .multithreaded(true)
        .build(base.clone());
    assert_eq!(debug_only.mount_args("p", "/m"), vec!["p", "/m", "-d"]);

    let foreground_only = Passthrough::options()
        .debug(false)
        .foreground(true)
        .multithreaded(true)
        .build(base.clone());
    assert_eq!(foreground_only.mount_args("p", "/m"), vec!["p", "/m", "-f"]);

    let single_threaded_only = Passthrough::options()
        .debug(false)
        .foreground(false)
        .multithreaded(false)
        .build(base);
    assert_eq!(single_threaded_only.mount_args("p", "/m"), vec!["p", "/m", "-s"]);
}
