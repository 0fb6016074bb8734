use pelican_installer::error::InstallerError;
use pelican_installer::utils::system::SystemInfo;

const DEBIAN: &str = "PRETTY_NAME=\"Debian GNU/Linux 12 (bookworm)\"\nNAME=\"Debian GNU/Linux\"\nVERSION_ID=\"12\"\nVERSION=\"12 (bookworm)\"\nVERSION_CODENAME=bookworm\nID=debian\nHOME_URL=\"https://www.debian.org/\"\n";

#[test]
fn fields_of_a_usual_description() {
    assert_eq!(SystemInfo::read_os_release_field(DEBIAN, "ID"), "debian");
    assert_eq!(SystemInfo::read_os_release_field(DEBIAN, "VERSION_ID"), "12");
    assert_eq!(SystemInfo::read_os_release_field(DEBIAN, "VERSION_CODENAME"), "bookworm");
    assert_eq!(SystemInfo::read_os_release_field(DEBIAN, "NAME"), "Debian GNU/Linux");
    assert_eq!(
        SystemInfo::read_os_release_field(DEBIAN, "HOME_URL"),
        "https://www.debian.org/"
    );
}

#[test]
fn missing_field_is_unknown() {
    assert_eq!(SystemInfo::read_os_release_field(DEBIAN, "BUILD_ID"), "Unknown");
    assert_eq!(SystemInfo::read_os_release_field("", "ID"), "Unknown");
    assert_eq!(SystemInfo::read_os_release_field("\n\n", "ID"), "Unknown");
}

#[test]
fn field_name_must_start_the_line_and_end_at_the_equals_sign() {
    assert_eq!(SystemInfo::read_os_release_field("VERSION_ID=12\n", "ID"), "Unknown");
    assert_eq!(SystemInfo::read_os_release_field(" ID=x\n", "ID"), "Unknown");
    assert_eq!(SystemInfo::read_os_release_field("ID_LIKE=debian\nID=ubuntu\n", "ID"), "ubuntu");
    assert_eq!(SystemInfo::read_os_release_field("id=x\n", "ID"), "Unknown");
    assert_eq!(SystemInfo::read_os_release_field("ID\n", "ID"), "Unknown");
}

#[test]
fn empty_values_are_passed_over() {
    assert_eq!(SystemInfo::read_os_release_field("ID=\nID=second\n", "ID"), "second");
    assert_eq!(SystemInfo::read_os_release_field("ID=\"\"\nID=second\n", "ID"), "second");
    assert_eq!(SystemInfo::read_os_release_field("ID=\"\"\"\n", "ID"), "Unknown");
    assert_eq!(SystemInfo::read_os_release_field("ID=", "ID"), "Unknown");
}

#[test]
fn first_value_wins() {
    assert_eq!(SystemInfo::read_os_release_field("ID=a\nID=b\n", "ID"), "a");
}

#[test]
fn quotes_are_taken_off_both_ends_only() {
    assert_eq!(SystemInfo::read_os_release_field("ID=\"\"a\"b\"\"\n", "ID"), "a\"b");
    assert_eq!(SystemInfo::read_os_release_field("ID=\"a\n", "ID"), "a");
    assert_eq!(SystemInfo::read_os_release_field("ID=a\"\n", "ID"), "a");
    assert_eq!(SystemInfo::read_os_release_field("ID='a'\n", "ID"), "'a'");
    assert_eq!(SystemInfo::read_os_release_field("ID= a \n", "ID"), " a ");
}

#[test]
fn line_endings() {
    assert_eq!(SystemInfo::read_os_release_field("ID=a", "ID"), "a");
    assert_eq!(SystemInfo::read_os_release_field("ID=a\r\nVERSION_ID=1\r\n", "ID"), "a");
    assert_eq!(SystemInfo::read_os_release_field("ID=a\r\nVERSION_ID=1\r\n", "VERSION_ID"), "1");
    assert_eq!(SystemInfo::read_os_release_field("ID=a\r", "ID"), "a\r");
    assert_eq!(SystemInfo::read_os_release_field("ID=a\r\r\n", "ID"), "a\r");
    assert_eq!(SystemInfo::read_os_release_field("\r\nID=a", "ID"), "a");
    assert_eq!(SystemInfo::read_os_release_field("ID=\r\nID=b", "ID"), "b");
}

fn by_the_standard_library(content: &str, field: &str) -> String {
    for line in content.lines() {
        if let Some(value) = line.strip_prefix(&format!("{}=", field)) {
            let cleaned = value.trim_matches('"').to_string();
            if !cleaned.is_empty() {
                return cleaned;
            }
        }
    }
    "Unknown".to_string()
}

#[test]
fn reading_agrees_with_line_splitting_of_the_standard_library() {
    let contents = [
        DEBIAN,
        "",
        "\n",
        "\r\n",
        "ID=a\n\nID=b",
        "ID=\"x y\"\r\nVERSION_ID=\"\"\r\nVERSION_ID=2\r\n",
        "A=1\rID=z\nB=2",
        "ID=\"\nID=\"\"\nID=\"q\"",
        "ID=é\nVERSION_ID=日本\n",
        "ID=a\r",
        "\rID=a",
    ];
    for content in contents {
        for field in ["ID", "VERSION_ID", "A", "B", ""] {
            assert_eq!(
                SystemInfo::read_os_release_field(content, field),
                by_the_standard_library(content, field),
                "{:?} {:?}",
                content,
                field
            );
        }
    }
}

#[test]
fn detect_reads_name_and_version() {
    let info = SystemInfo::detect(Ok(DEBIAN.to_string()), true, false).unwrap();
    assert_eq!(
        info,
        SystemInfo {
            os_name: "debian".to_string(),
            os_version: "12".to_string(),
            panel_installed: true,
            wings_installed: false,
        }
    );
}

#[test]
fn detect_of_an_empty_description_is_unknown() {
    let info = SystemInfo::detect(Ok(String::new()), false, true).unwrap();
    assert_eq!(info.os_name, "Unknown");
    assert_eq!(info.os_version, "Unknown");
    assert!(!info.panel_installed);
    assert!(info.wings_installed);
}

#[test]
fn detect_fails_where_the_description_could_not_be_read() {
    assert_eq!(
        SystemInfo::detect(Err("No such file or directory (os error 2)".to_string()), false, false),
        Err(InstallerError::SystemDetection(
            "Failed to read /etc/os-release: No such file or directory (os error 2)".to_string()
        ))
    );
}

#[test]
fn menu_title_names_the_system() {
    let info = SystemInfo {
        os_name: "ubuntu".to_string(),
        os_version: "22.04".to_string(),
        panel_installed: false,
        wings_installed: false,
    };
    assert_eq!(info.get_menu_title(), "OS: ubuntu 22.04");
    assert_eq!(info.clone(), info);
}
