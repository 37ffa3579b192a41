use colza::token_store::{token_in, token_path};
use std::path::PathBuf;

fn bytes(s: &str) -> Option<Vec<u8>> {
    Some(s.as_bytes().to_vec())
}

#[test]
fn the_token_is_kept_in_the_config_directory() {
    assert_eq!(
        token_path(bytes("/xdg"), bytes("/home/me")),
        bytes("/xdg/colza/screencast-restore-token")
    );
    assert_eq!(
        token_path(bytes(""), bytes("/home/me")),
        bytes("/home/me/.config/colza/screencast-restore-token")
    );
    assert_eq!(
        token_path(None, bytes("/home/me/")),
        bytes("/home/me/.config/colza/screencast-restore-token")
    );
    assert_eq!(token_path(None, None), None);
    assert_eq!(token_path(bytes(""), None), None);
    assert_eq!(
        token_path(Some(vec![0xff, 0xfe]), None),
        Some([&[0xff, 0xfe][..], b"/colza/screencast-restore-token"].concat())
    );
}

#[test]
fn paths_are_joined_as_std_joins_them() {
    for dir in ["/", "/a", "/a/", "/a//", "rel", "."] {
        let path = PathBuf::from(dir).join("colza").join("screencast-restore-token");
        assert_eq!(token_path(bytes(dir), None), bytes(path.to_str().unwrap()));
    }
    for home in ["", "/", "/h", "/h/"] {
        let path = PathBuf::from(home)
            .join(".config")
            .join("colza")
            .join("screencast-restore-token");
        assert_eq!(token_path(None, bytes(home)), bytes(path.to_str().unwrap()));
    }
}

#[test]
fn a_token_is_read_without_whitespace() {
    assert_eq!(token_in("abc-123").as_deref(), Some("abc-123"));
    assert_eq!(token_in("\n abc 123\t\r\n").as_deref(), Some("abc 123"));
    assert_eq!(token_in("é\u{3000}").as_deref(), Some("é"));
    assert_eq!(token_in(" \n\t"), None);
    assert_eq!(token_in(""), None);
}
