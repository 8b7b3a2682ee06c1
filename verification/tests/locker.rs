use cvmodtool::{LockBackend, Locker};
use fs2::FileExt;
use tempfile::NamedTempFile;

/// The OS half of the lock, as the tool wires it up: an exclusive
/// advisory lock on an open handle of the lock file.
struct FsBackend<F> {
    handle: F,
}

impl<F: FileExt> LockBackend for FsBackend<F> {
    fn acquire(&mut self, _path: &str) -> bool {
        self.handle.try_lock_exclusive().is_ok()
    }

    fn release(&mut self) -> bool {
        FileExt::unlock(&self.handle).is_ok()
    }
}

#[test]
fn lock_unlock() {
    let file = NamedTempFile::new().unwrap();
    let path = file.path().to_string_lossy().into_owned();
    let backend = FsBackend {
        handle: file.reopen().unwrap(),
    };
    let mut locker = Locker::new(path, backend);

    assert!(!locker.is_locked());
    assert!(locker.lock());
    assert!(locker.is_locked());
    assert!(!locker.lock());
    assert!(locker.is_locked());
    assert!(locker.unlock());
    assert!(!locker.is_locked());
    assert!(!locker.unlock());
    assert!(!locker.is_locked());
}

#[test]
fn second_locker_fails_while_first_holds_the_path() {
    let file = NamedTempFile::new().unwrap();
    let path = file.path().to_string_lossy().into_owned();
    let mut first = Locker::new(
        path.clone(),
        FsBackend {
            handle: file.reopen().unwrap(),
        },
    );
    let mut second = Locker::new(
        path,
        FsBackend {
            handle: file.reopen().unwrap(),
        },
    );

    assert!(first.lock());
    assert!(!second.lock());
    assert!(!second.is_locked());

    assert!(first.unlock());
    assert!(second.lock());
    assert!(second.unlock());
}

#[test]
fn dropping_the_lock_file_handle_removes_it() {
    let path: String;
    {
        let file = NamedTempFile::new().unwrap();
        path = file.path().to_string_lossy().into_owned();
        let backend = FsBackend {
            handle: file.reopen().unwrap(),
        };
        let mut locker = Locker::new(path.clone(), backend);
        assert!(locker.lock());
        assert!(std::path::Path::new(&path).exists());
        assert!(locker.unlock());
    }
    assert!(!std::path::Path::new(&path).exists());
}
