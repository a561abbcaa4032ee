use todo_list::error::{ConfigError, ExternalToolError, Setting};
use todo_list::sync::{copy_call, copy_tool, sync_in_cloud, sync_in_local, sync_report, Direction};

fn strings(words: &[&str]) -> Vec<String> {
    words.iter().map(|w| w.to_string()).collect()
}

#[test]
fn the_copy_tool_is_rclone() {
    assert_eq!(copy_tool(), "rclone");
}

#[test]
fn a_copy_call_names_source_then_destination() {
    assert_eq!(copy_call("a", "b"), strings(&["copy", "a", "b", "--update"]));
}

#[test]
fn sync_in_cloud_copies_the_store_file_to_the_cloud_path() {
    assert_eq!(
        sync_in_cloud("/home/me/.todo_list.db", Some("remote:todo")),
        Ok(strings(&["copy", "/home/me/.todo_list.db", "remote:todo", "--update"]))
    );
}

#[test]
fn sync_in_cloud_needs_the_cloud_path() {
    assert_eq!(
        sync_in_cloud("/home/me/.todo_list.db", None),
        Err(ConfigError::Missing(Setting::CloudPath))
    );
}

#[test]
fn sync_in_local_copies_from_the_local_path_into_the_home_directory() {
    assert_eq!(
        sync_in_local("/home/me", Some("remote:todo/.todo_list.db")),
        Ok(strings(&["copy", "remote:todo/.todo_list.db", "/home/me", "--update"]))
    );
}

#[test]
fn sync_in_local_needs_the_local_path() {
    assert_eq!(sync_in_local("/home/me", None), Err(ConfigError::Missing(Setting::LocalPath)));
}

#[test]
fn each_direction_has_its_setting() {
    assert_eq!(Direction::ToCloud.setting(), Setting::CloudPath);
    assert_eq!(Direction::ToLocal.setting(), Setting::LocalPath);
    assert_eq!(Setting::CloudPath.name(), "CLOUD_PATH");
    assert_eq!(Setting::LocalPath.name(), "LOCAL_PATH");
}

#[test]
fn a_run_that_succeeded_is_confirmed() {
    assert_eq!(sync_report(true, ""), Ok("\u{2705} Sync successful!"));
    assert_eq!(sync_report(true, "ignored"), Ok("\u{2705} Sync successful!"));
}

#[test]
fn a_run_that_failed_is_reported_with_its_diagnostics() {
    let failed = sync_report(false, "no such remote");
    assert_eq!(failed, Err(ExternalToolError::Failed("no such remote".to_string())));
    assert_eq!(failed.unwrap_err().message(), "\u{274c} Sync failed: no such remote");
}
