use netixfs::path::FsPath;
use netixfs::ready::{run_checks, Check, Checks, Ready, Status};
use netixfs::service::{
    candidate_path, sanitize_path, Located, Opening, ReadFile, ReadStep,
};
use netixfs::user::{Authenticator, User};

fn path(text: &str) -> FsPath {
    FsPath::new(text)
}

fn user() -> User {
    Authenticator::new(path("/srv/data")).authorize(true).unwrap()
}

#[test]
fn user_has_a_directory() {
    assert_eq!(user().data_root(), &path("/srv/data/myuser"));
    assert_eq!(user().clone(), user());
    let authenticator = Authenticator::new(path("/srv/")).clone();
    assert_eq!(authenticator.check_auth(true).unwrap().data_root(), &path("/srv/myuser"));
}

#[test]
fn request_without_a_valid_token() {
    let authenticator = Authenticator::new(path("/srv/data"));
    assert_eq!(authenticator.check_auth(false), None);
    assert_eq!(authenticator.authorize(false), Err(401));
}

#[test]
fn requests_are_joined_to_the_directory() {
    assert_eq!(candidate_path(&path("/srv"), "a/b.txt"), Ok(path("/srv/a/b.txt")));
    assert_eq!(candidate_path(&path("/srv/"), "a"), Ok(path("/srv/a")));
    assert_eq!(candidate_path(&path("/srv"), ""), Ok(path("/srv/")));
    assert_eq!(candidate_path(&path("/srv"), "a/./b"), Ok(path("/srv/a/./b")));
    assert_eq!(candidate_path(&path("/srv"), "..."), Ok(path("/srv/...")));
    for refused in ["..", "a/../b", "/etc/passwd", "a//b", "a/", "a\0b", "a/.."] {
        assert_eq!(candidate_path(&path("/srv"), refused), Err(403));
    }
}

#[test]
fn paths_compare_by_components() {
    for (whole, base) in [
        ("/srv/a", "/srv"),
        ("/srv", "/srv"),
        ("/srv", "/srv/"),
        ("/srvx", "/srv"),
        ("/srv/a", "/srv/ab"),
        ("srv/a", "/srv"),
        ("/srv/./a//b", "/srv/a"),
        ("/srv/../etc", "/srv"),
        ("./a", "a"),
        ("./a", "."),
        ("a", ""),
        ("/", "/"),
        ("/a", ""),
        ("", "/"),
    ] {
        assert_eq!(
            path(whole).starts_with(&path(base)),
            std::path::Path::new(whole).starts_with(base),
            "{whole} {base}"
        );
    }
}

#[test]
fn joining_is_that_of_paths() {
    for base in ["", "/", "/a", "a/", "a"] {
        for more in ["", "b", "/b", "b/c", "../x"] {
            let joined = std::path::Path::new(base).join(more);
            assert_eq!(path(base).join(&path(more)), path(joined.to_str().unwrap()));
        }
    }
}

#[test]
fn real_paths_are_kept_inside() {
    assert_eq!(sanitize_path(&path("/srv"), Located::Found(path("/srv/a"))), Ok(path("/srv/a")));
    assert_eq!(sanitize_path(&path("/srv"), Located::Found(path("/etc/passwd"))), Err(403));
    assert_eq!(sanitize_path(&path("/srv"), Located::Missing), Err(404));
    assert_eq!(sanitize_path(&path("/srv"), Located::Denied), Err(403));
    assert_eq!(sanitize_path(&path("/srv"), Located::WrongKind), Err(400));
}

#[test]
fn file_that_is_sent() {
    let request = ReadFile::new(user().data_root().clone(), "a.txt");
    match &request.step {
        ReadStep::Canonicalize(candidate) => {
            assert_eq!(candidate, &path("/srv/data/myuser/a.txt"))
        }
        other => panic!("unexpected {:?}", other),
    }
    let request = request.canonicalized(Located::Found(path("/srv/data/myuser/b.txt")));
    assert!(matches!(&request.step, ReadStep::Inspect(real) if *real == path("/srv/data/myuser/b.txt")));
    let request = request.inspected(true);
    assert!(matches!(&request.step, ReadStep::Open(real) if *real == path("/srv/data/myuser/b.txt")));
    let request = request.opened(Opening::Opened);
    assert!(matches!(request.step, ReadStep::Send));
}

fn looked_up() -> ReadFile {
    ReadFile::new(path("/srv"), "a")
}

#[test]
fn files_that_are_refused() {
    assert!(matches!(ReadFile::new(path("/srv"), "../a").step, ReadStep::Refuse(403)));
    assert!(matches!(looked_up().canonicalized(Located::Missing).step, ReadStep::Refuse(404)));
    assert!(matches!(looked_up().canonicalized(Located::Found(path("/a"))).step, ReadStep::Refuse(403)));
    let inside = || looked_up().canonicalized(Located::Found(path("/srv/a")));
    assert!(matches!(inside().inspected(false).step, ReadStep::Refuse(404)));
    assert!(matches!(looked_up().canonicalized(Located::Denied).step, ReadStep::Refuse(403)));
    assert!(matches!(looked_up().canonicalized(Located::WrongKind).step, ReadStep::Refuse(400)));
    for (opening, expected) in [
        (Opening::Denied, 403),
        (Opening::Missing, 404),
        (Opening::WrongKind, 400),
        (Opening::Failed, 500),
    ] {
        match inside().inspected(true).opened(opening).step {
            ReadStep::Refuse(status) => assert_eq!(status, expected),
            other => panic!("unexpected {:?}", other),
        }
    }
}

#[test]
fn readiness() {
    let checks = run_checks();
    assert!(!checks.has_failures());
    assert_eq!(checks.into_response(), (200, Ready { status: Status::Ready, checks }));
    for failing in 0..3 {
        let check = |at: i32| if at == failing { Check::Unavailable } else { Check::Available };
        let checks = Checks { configuration: check(0), jwt_keys: check(1), pool: check(2) };
        assert!(checks.has_failures());
        assert_eq!(checks.into_response(), (503, Ready { status: Status::NotReady, checks }));
    }
    assert!(Check::Unavailable.is_failure());
    assert!(!Check::Available.is_failure());
    assert_eq!(Check::Available.as_str(), "ok");
    assert_eq!(Check::Unavailable.as_str(), "unavailable");
    assert_eq!(Status::Ready.as_str(), "ready");
    assert_eq!(Status::NotReady.as_str(), "not_ready");
}
