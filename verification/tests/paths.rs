use std::path::{Path, PathBuf};
use wws_worker::bytes::{append_prefix, copy};
use wws_worker::path::{join, parent, with_extension};
use wws_worker::worker::config_path;

const PATHS: [&[u8]; 34] = [
    b"", b"/", b"//", b".", b"./", b"./.", b"/.", b"/./", b"..", b"../", b"/..", b"a", b"a/",
    b"a/.", b"a/..", b"./a", b"../a", b"/a", b"//a", b"/./a", b"a/b", b"a//b", b"a/./b",
    b"a/b/", b"a/b/./", b"a.b/c.wasm", b"/p/.wasm", b"/p/a.b.wasm", b"/p/a.", b"/p/...",
    b"/p/..a", b"p/\xc3\xa9.wasm", b"p/a.wasm//", b"p/a.wasm/./.",
];

fn bytes(path: &Path) -> Vec<u8> {
    path.to_str().unwrap().as_bytes().to_vec()
}

fn host(path: &[u8]) -> PathBuf {
    PathBuf::from(std::str::from_utf8(path).unwrap())
}

#[test]
fn absolute_path_wins() {
    assert_eq!(join(b"/project", b"/workers/a.wasm"), b"/workers/a.wasm".to_vec());
    assert_eq!(join(b"", b"/workers/a.wasm"), b"/workers/a.wasm".to_vec());
}

#[test]
fn relative_path_is_appended() {
    assert_eq!(join(b"/project", b"a.wasm"), b"/project/a.wasm".to_vec());
    assert_eq!(join(b"/project/", b"a.wasm"), b"/project/a.wasm".to_vec());
    assert_eq!(join(b"", b"a.wasm"), b"a.wasm".to_vec());
    assert_eq!(join(b"/project", b""), b"/project/".to_vec());
}

#[test]
fn join_agrees_with_the_host() {
    for base in PATHS {
        for path in PATHS {
            assert_eq!(join(base, path), bytes(&host(base).join(host(path))));
        }
    }
}

#[test]
fn parent_of_ordinary_paths() {
    assert_eq!(parent(b"/project/workers/a.wasm"), Some(b"/project/workers".to_vec()));
    assert_eq!(parent(b"a.wasm"), Some(b"".to_vec()));
    assert_eq!(parent(b"/a.wasm"), Some(b"/".to_vec()));
}

#[test]
fn root_and_nothing_have_no_parent() {
    assert_eq!(parent(b""), None);
    assert_eq!(parent(b"/"), None);
    assert_eq!(parent(b"//"), None);
    assert_eq!(parent(b"/."), None);
}

#[test]
fn parent_agrees_with_the_host() {
    for path in PATHS {
        assert_eq!(parent(path), host(path).parent().map(bytes));
    }
}

#[test]
fn extension_is_replaced() {
    assert_eq!(with_extension(b"a.wasm", b"toml"), b"a.toml".to_vec());
    assert_eq!(with_extension(b"a.b.wasm", b"toml"), b"a.b.toml".to_vec());
    assert_eq!(with_extension(b"a", b"toml"), b"a.toml".to_vec());
    assert_eq!(with_extension(b".wasm", b"toml"), b".wasm.toml".to_vec());
    assert_eq!(with_extension(b"a.wasm", b""), b"a".to_vec());
    assert_eq!(with_extension(b"a/..", b"toml"), b"a/..".to_vec());
}

#[test]
fn extension_agrees_with_the_host() {
    for path in PATHS {
        for extension in [&b"toml"[..], &b""[..], &b"x"[..]] {
            let mut expected = host(path);
            expected.set_extension(std::str::from_utf8(extension).unwrap());
            assert_eq!(with_extension(path, extension), bytes(&expected));
        }
    }
}

#[test]
fn config_file_lies_beside_the_worker() {
    assert_eq!(config_path(b"/project/hello.js"), b"/project/hello.toml".to_vec());
    for path in PATHS {
        let config = config_path(path);
        assert_eq!(parent(&config), parent(path));
        assert_eq!(config_path(&config), config);
    }
}

#[test]
fn absolute_base_gives_absolute_paths() {
    assert_eq!(join(b"/p", b"../x")[0], b'/');
    assert_eq!(join(b"/", b"")[0], b'/');
}

#[test]
fn bytes_are_copied() {
    assert_eq!(copy(b"abc"), b"abc".to_vec());
    assert_eq!(copy(b""), b"".to_vec());
    let mut out = b"ab".to_vec();
    append_prefix(&mut out, b"cdef", 2);
    assert_eq!(out, b"abcd".to_vec());
}
