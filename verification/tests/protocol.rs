use stund::protocol::{
    get_socket_path, log_path_in, socket_path_found, socket_path_in, NoHomeDirectory,
};

#[test]
fn the_socket_lies_in_the_home_directory() {
    assert_eq!(
        socket_path_in(&b"/home/me".to_vec()),
        b"/home/me/.ssh/stund.sock".to_vec()
    );
    assert_eq!(
        socket_path_in(&b"/home/me/".to_vec()),
        b"/home/me/.ssh/stund.sock".to_vec()
    );
    assert_eq!(socket_path_in(&b"/".to_vec()), b"/.ssh/stund.sock".to_vec());
    assert_eq!(socket_path_in(&Vec::new()), b".ssh/stund.sock".to_vec());
}

#[test]
fn the_log_lies_beside_the_socket() {
    let home = b"/home/me".to_vec();
    let log = log_path_in(&home);
    assert_eq!(log, b"/home/me/.ssh/stund.log".to_vec());
    let socket = socket_path_in(&home);
    assert_eq!(socket[..socket.len() - 4], log[..log.len() - 3]);
}

#[test]
fn the_socket_of_the_current_user() {
    match get_socket_path() {
        Ok(path) => {
            assert!(path.len() > b"/.ssh/stund.sock".len());
            assert!(path.ends_with(b"/.ssh/stund.sock"));
        }
        Err(e) => assert_eq!(e, NoHomeDirectory),
    }
}

#[test]
fn no_home_directory_is_described() {
    assert_eq!(
        NoHomeDirectory.describe(),
        "unable to determine your home directory"
    );
}

#[test]
fn the_socket_needs_a_home_directory() {
    assert_eq!(
        socket_path_found(Some(b"/home/me".to_vec())),
        Ok(b"/home/me/.ssh/stund.sock".to_vec())
    );
    assert_eq!(socket_path_found(None), Err(NoHomeDirectory));
}
