use notion_path::folders::{OsEnvironment, SystemFolderId, UnknownSystemFolderError};
use notion_path::layout::{
    bin_dir, cache_dir, install_root, launchbin_file, launchscript_file, node_cache_dir,
    node_version_bin_dir, node_version_dir, node_versions_dir, notion_file, shim_dir, shim_file,
    user_catalog_file, user_config_file, versions_dir,
};
use notion_path::platform::{archive_extension, ArchKind, OsKind, Platform};

fn win() -> Platform {
    Platform { os: OsKind::Windows, arch: ArchKind::X64 }
}

fn linux() -> Platform {
    Platform { os: OsKind::Linux, arch: ArchKind::X64 }
}

fn win_env() -> OsEnvironment {
    OsEnvironment {
        shared_data_root: Some(String::from("C:\\ProgramData")),
        program_install_root: Some(String::from("C:\\Program Files")),
        user_local_data_root: Some(String::from("C:\\Users\\alice\\AppData\\Local")),
    }
}

fn linux_env() -> OsEnvironment {
    OsEnvironment {
        shared_data_root: Some(String::from("/var/lib")),
        program_install_root: Some(String::from("/usr/local")),
        user_local_data_root: Some(String::from("/home/alice/.local/share")),
    }
}

fn empty_env() -> OsEnvironment {
    OsEnvironment {
        shared_data_root: None,
        program_install_root: None,
        user_local_data_root: None,
    }
}

#[test]
fn windows_cache_dir_example() {
    assert_eq!(
        cache_dir(&win(), &win_env()),
        Ok(String::from("C:\\ProgramData\\Notion\\cache"))
    );
}

#[test]
fn windows_node_version_dir_example() {
    assert_eq!(
        node_version_dir(&win(), &win_env(), "8.6.0"),
        Ok(String::from("C:\\ProgramData\\Notion\\versions\\node\\8.6.0"))
    );
}

#[test]
fn windows_shim_file_example() {
    assert_eq!(
        shim_file(&win(), &win_env(), "npm"),
        Ok(String::from("C:\\Program Files\\Notion\\shim\\npm.exe"))
    );
}

#[test]
fn windows_user_catalog_file_example() {
    assert_eq!(
        user_catalog_file(&win(), &win_env()),
        Ok(String::from("C:\\Users\\alice\\AppData\\Local\\Notion\\catalog.toml"))
    );
}

#[test]
fn windows_remaining_locations() {
    let p = win();
    let env = win_env();
    assert_eq!(
        install_root(&p, &env, SystemFolderId::SharedData),
        Ok(String::from("C:\\ProgramData\\Notion"))
    );
    assert_eq!(
        node_cache_dir(&p, &env),
        Ok(String::from("C:\\ProgramData\\Notion\\cache\\node"))
    );
    assert_eq!(
        versions_dir(&p, &env),
        Ok(String::from("C:\\ProgramData\\Notion\\versions"))
    );
    assert_eq!(
        node_versions_dir(&p, &env),
        Ok(String::from("C:\\ProgramData\\Notion\\versions\\node"))
    );
    assert_eq!(
        launchbin_file(&p, &env),
        Ok(String::from("C:\\ProgramData\\Notion\\launchbin.exe"))
    );
    assert_eq!(
        launchscript_file(&p, &env),
        Ok(String::from("C:\\ProgramData\\Notion\\launchscript.exe"))
    );
    assert_eq!(bin_dir(&p, &env), Ok(String::from("C:\\Program Files\\Notion")));
    assert_eq!(
        notion_file(&p, &env),
        Ok(String::from("C:\\Program Files\\Notion\\notion.exe"))
    );
    assert_eq!(
        shim_dir(&p, &env),
        Ok(String::from("C:\\Program Files\\Notion\\shim"))
    );
    assert_eq!(
        user_config_file(&p, &env),
        Ok(String::from("C:\\Users\\alice\\AppData\\Local\\Notion\\config.toml"))
    );
}

#[test]
fn windows_version_bin_dir_is_version_dir() {
    let p = win();
    let env = win_env();
    assert_eq!(
        node_version_bin_dir(&p, &env, "8.6.0"),
        node_version_dir(&p, &env, "8.6.0")
    );
}

#[test]
fn linux_version_bin_dir_is_nested_bin_child() {
    let p = linux();
    let env = linux_env();
    let version = node_version_dir(&p, &env, "8.6.0").unwrap();
    assert_eq!(version, String::from("/var/lib/Notion/versions/node/8.6.0"));
    assert_eq!(
        node_version_bin_dir(&p, &env, "8.6.0"),
        Ok(format!("{}/bin", version))
    );
}

#[test]
fn linux_shim_file_has_no_suffix() {
    assert_eq!(
        shim_file(&linux(), &linux_env(), "npm"),
        Ok(String::from("/usr/local/Notion/shim/npm"))
    );
}

#[test]
fn linux_launcher_files_have_no_suffix() {
    let p = linux();
    let env = linux_env();
    assert_eq!(
        launchbin_file(&p, &env),
        Ok(String::from("/var/lib/Notion/launchbin"))
    );
    assert_eq!(
        launchscript_file(&p, &env),
        Ok(String::from("/var/lib/Notion/launchscript"))
    );
    assert_eq!(
        notion_file(&p, &env),
        Ok(String::from("/usr/local/Notion/notion"))
    );
}

#[test]
fn archive_extension_per_platform() {
    assert_eq!(archive_extension(&win()), String::from("zip"));
    assert_eq!(archive_extension(&linux()), String::from("tar.gz"));
    assert_eq!(
        archive_extension(&Platform { os: OsKind::MacOs, arch: ArchKind::X64 }),
        String::from("tar.gz")
    );
}

#[test]
fn platform_tags() {
    let p = Platform { os: OsKind::Windows, arch: ArchKind::X86 };
    assert_eq!(p.os_tag(), "win");
    assert_eq!(p.arch_tag(), "x86");
    assert_eq!(p.exe_suffix(), ".exe");
    assert_eq!(p.separator(), "\\");
    let q = Platform { os: OsKind::MacOs, arch: ArchKind::X64 };
    assert_eq!(q.os_tag(), "darwin");
    assert_eq!(q.arch_tag(), "x64");
    assert_eq!(q.exe_suffix(), "");
    assert_eq!(q.separator(), "/");
    assert_eq!(linux().os_tag(), "linux");
}

#[test]
fn missing_shared_data_fails_every_dependent_identically() {
    let p = win();
    let env = empty_env();
    let expected = Err(UnknownSystemFolderError { name: SystemFolderId::SharedData });
    assert_eq!(cache_dir(&p, &env), expected);
    assert_eq!(node_cache_dir(&p, &env), expected);
    assert_eq!(versions_dir(&p, &env), expected);
    assert_eq!(node_versions_dir(&p, &env), expected);
    assert_eq!(node_version_dir(&p, &env, "8.6.0"), expected);
    assert_eq!(node_version_bin_dir(&p, &env, "8.6.0"), expected);
    assert_eq!(launchbin_file(&p, &env), expected);
    assert_eq!(launchscript_file(&p, &env), expected);
}

#[test]
fn missing_program_install_fails_every_dependent_identically() {
    let p = win();
    let env = empty_env();
    let expected = Err(UnknownSystemFolderError { name: SystemFolderId::ProgramInstall });
    assert_eq!(bin_dir(&p, &env), expected);
    assert_eq!(notion_file(&p, &env), expected);
    assert_eq!(shim_dir(&p, &env), expected);
    assert_eq!(shim_file(&p, &env, "npm"), expected);
}

#[test]
fn missing_user_local_data_fails_every_dependent_identically() {
    let p = win();
    let env = empty_env();
    let expected = Err(UnknownSystemFolderError { name: SystemFolderId::UserLocalData });
    assert_eq!(user_config_file(&p, &env), expected);
    assert_eq!(user_catalog_file(&p, &env), expected);
}

#[test]
fn only_the_missing_folder_matters() {
    let p = win();
    let env = OsEnvironment {
        shared_data_root: None,
        program_install_root: Some(String::from("C:\\Program Files")),
        user_local_data_root: None,
    };
    assert_eq!(
        cache_dir(&p, &env),
        Err(UnknownSystemFolderError { name: SystemFolderId::SharedData })
    );
    assert_eq!(
        shim_file(&p, &env, "npm"),
        Ok(String::from("C:\\Program Files\\Notion\\shim\\npm.exe"))
    );
    assert_eq!(
        user_config_file(&p, &env),
        Err(UnknownSystemFolderError { name: SystemFolderId::UserLocalData })
    );
}

#[test]
fn every_error_carries_the_symbolic_folder_name() {
    let p = win();
    let env = empty_env();
    let e1 = cache_dir(&p, &env).unwrap_err();
    assert_eq!(e1.name.name(), "SHARED_DATA");
    let e2 = shim_dir(&p, &env).unwrap_err();
    assert_eq!(e2.name.name(), "PROGRAM_INSTALL");
    let e3 = user_catalog_file(&p, &env).unwrap_err();
    assert_eq!(e3.name.name(), "USER_LOCAL_DATA");
}

#[test]
fn resolution_is_idempotent() {
    let p = win();
    let env = win_env();
    assert_eq!(cache_dir(&p, &env), cache_dir(&p, &env));
    assert_eq!(shim_file(&p, &env, "npx"), shim_file(&p, &env, "npx"));
    let missing = empty_env();
    assert_eq!(versions_dir(&p, &missing), versions_dir(&p, &missing));
}

#[test]
fn resolve_returns_the_os_reported_path() {
    let env = win_env();
    assert_eq!(
        env.resolve(SystemFolderId::SharedData),
        Ok(String::from("C:\\ProgramData"))
    );
    assert_eq!(
        env.resolve(SystemFolderId::ProgramInstall),
        Ok(String::from("C:\\Program Files"))
    );
    assert_eq!(
        env.resolve(SystemFolderId::UserLocalData),
        Ok(String::from("C:\\Users\\alice\\AppData\\Local"))
    );
    assert_eq!(
        empty_env().resolve(SystemFolderId::SharedData),
        Err(UnknownSystemFolderError { name: SystemFolderId::SharedData })
    );
}

#[test]
fn version_and_tool_names_are_interpolated_verbatim() {
    let p = linux();
    let env = linux_env();
    assert_eq!(
        node_version_dir(&p, &env, "v8.6.0-rc.1"),
        Ok(String::from("/var/lib/Notion/versions/node/v8.6.0-rc.1"))
    );
    assert_eq!(
        shim_file(&p, &env, "npm cli"),
        Ok(String::from("/usr/local/Notion/shim/npm cli"))
    );
}
