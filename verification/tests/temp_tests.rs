use pbo_tools::temp::{join_paths, TempFileManager};

fn is_scratch_path(path: &str, base: &str) -> bool {
    let head = format!("{}/.tmp", base);
    path.starts_with(&head)
        && path.len() == head.len() + 32
        && path[head.len()..].chars().all(|c| c.is_ascii_digit() || ('a'..='f').contains(&c))
}

#[test]
fn test_temp_manager_create() {
    let mut manager = TempFileManager::new("/tmp");
    let temp_dir = manager.create_temp_dir(100);
    assert!(temp_dir.path().starts_with("/tmp/pbo_tools"));
    assert!(is_scratch_path(temp_dir.path(), "/tmp/pbo_tools"));
    assert!(manager.is_active(temp_dir.path()));
    assert_eq!(manager.temp_base(), "/tmp/pbo_tools");
}

#[test]
fn test_temp_manager_multiple_dirs() {
    let mut manager = TempFileManager::new("/tmp");
    let dir1 = manager.create_temp_dir(1);
    let dir2 = manager.create_temp_dir(2);

    assert!(manager.is_active(dir1.path()));
    assert!(manager.is_active(dir2.path()));
    assert_ne!(dir1.path(), dir2.path());
    assert_eq!(manager.active_dir_count(), 2);
    assert_eq!(manager.active_dirs(), vec![dir1.path().to_string(), dir2.path().to_string()]);
}

#[test]
fn test_temp_dir_cleanup() {
    let mut manager = TempFileManager::new("/tmp");
    let temp_dir = manager.create_temp_dir(5);
    let path = temp_dir.path().to_string();
    assert!(manager.release(&path));
    assert!(!manager.is_active(&path));
    assert_eq!(manager.active_dir_count(), 0);
    assert!(!manager.release(&path));
}

#[test]
fn test_temp_dir_expiration() {
    let mut manager = TempFileManager::with_max_age("/tmp", 100);
    let temp_dir = manager.create_temp_dir(1000);
    let path = temp_dir.path().to_string();

    assert!(!manager.is_expired(100));
    assert!(manager.is_expired(101));
    assert!(!manager.expire(&path, temp_dir.age(1100)));
    assert!(manager.is_active(&path));
    assert!(manager.expire(&path, temp_dir.age(1101)));
    assert!(!manager.is_active(&path));
    assert!(!manager.expire(&path, 5000));
}

#[test]
fn test_temp_dir_path_methods() {
    let mut manager = TempFileManager::new("/var/tmp/");
    let temp_dir = manager.create_temp_dir_named("0123456789abcdef0123456789abcdef", 7);
    assert_eq!(temp_dir.path(), "/var/tmp/pbo_tools/.tmp0123456789abcdef0123456789abcdef");
    assert_eq!(
        temp_dir.join("sub/file.txt"),
        "/var/tmp/pbo_tools/.tmp0123456789abcdef0123456789abcdef/sub/file.txt"
    );
    assert_eq!(temp_dir.join("/abs"), "/abs");
    assert_eq!(temp_dir.age(10), 3);
    assert_eq!(temp_dir.age(7), 0);
    assert_eq!(temp_dir.age(6), 0);
}

#[test]
fn registry_holds_each_path_once() {
    let mut manager = TempFileManager::new("/tmp");
    manager.register("/tmp/pbo_tools/a");
    manager.register("/tmp/pbo_tools/b");
    manager.register("/tmp/pbo_tools/a");
    assert_eq!(manager.active_dir_count(), 2);
    assert!(manager.release("/tmp/pbo_tools/a"));
    assert_eq!(manager.active_dirs(), vec!["/tmp/pbo_tools/b".to_string()]);
    let mut same = TempFileManager::new("/tmp");
    same.create_temp_dir_named("t", 0);
    same.create_temp_dir_named("t", 1);
    assert_eq!(same.active_dir_count(), 1);
}

#[test]
fn forked_manager_has_a_registry_of_its_own() {
    let mut manager = TempFileManager::with_max_age("/tmp", 9);
    let dir = manager.create_temp_dir(0);
    let mut fork = manager.fork();
    assert_eq!(fork.temp_base(), manager.temp_base());
    assert_eq!(fork.active_dir_count(), 0);
    assert!(fork.is_expired(10) && !fork.is_expired(9));
    assert!(!fork.release(dir.path()));
    assert!(!fork.expire(dir.path(), 1000));
    assert!(manager.is_active(dir.path()));
}

#[test]
fn max_age_defaults_to_an_hour() {
    let mut manager = TempFileManager::new("/tmp");
    assert!(!manager.is_expired(3600));
    assert!(manager.is_expired(3601));
    manager.set_max_age(1);
    assert!(manager.is_expired(2));
}

#[test]
fn joining_paths() {
    assert_eq!(join_paths("/tmp", "pbo_tools"), "/tmp/pbo_tools");
    assert_eq!(join_paths("/tmp/", "pbo_tools"), "/tmp/pbo_tools");
    assert_eq!(join_paths("C:\\Temp\\", "pbo_tools"), "C:\\Temp\\pbo_tools");
    assert_eq!(join_paths("", "pbo_tools"), "pbo_tools");
    assert_eq!(join_paths("/tmp", ""), "/tmp/");
    assert_eq!(join_paths("/tmp", "/abs"), "/abs");
    assert_eq!(join_paths("/tmp", "\\abs"), "\\abs");
}
