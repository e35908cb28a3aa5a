use tmp_postgrust::factory::{connection_string, join_path, TmpPostgrustFactory, FIRST_PORT};

fn factory() -> TmpPostgrustFactory {
    TmpPostgrustFactory::assemble("/tmp/sock.1".to_string(), "/tmp/cache.1".to_string())
}

#[test]
fn the_configuration_has_three_directives() {
    assert_eq!(
        TmpPostgrustFactory::build_config("/tmp/tmp-postgrust-socket.abc"),
        "shared_buffers = '12MB'\nlisten_addresses = ''\nunix_socket_directories = '/tmp/tmp-postgrust-socket.abc'\n"
    );
}

#[test]
fn the_configuration_of_an_empty_path() {
    assert_eq!(
        TmpPostgrustFactory::build_config(""),
        "shared_buffers = '12MB'\nlisten_addresses = ''\nunix_socket_directories = ''\n"
    );
}

#[test]
fn a_factory_keeps_the_configuration_of_its_socket_directory() {
    let f = factory();
    assert_eq!(f.config(), TmpPostgrustFactory::build_config("/tmp/sock.1"));
    assert_eq!(f.socket_dir(), "/tmp/sock.1");
    assert_eq!(f.cache_dir(), "/tmp/cache.1");
}

#[test]
fn the_connection_uri_names_role_port_database_and_socket() {
    assert_eq!(
        connection_string(5432, "/tmp/sock.1"),
        "postgresql://demo@localhost:5432/demo?host=/tmp/sock.1"
    );
    assert_eq!(
        connection_string(65000, "/var/run/x"),
        "postgresql://demo@localhost:65000/demo?host=/var/run/x"
    );
}

#[test]
fn connection_uris_differ_where_ports_differ() {
    assert_ne!(connection_string(5432, "/s"), connection_string(5433, "/s"));
    assert_ne!(connection_string(54, "/s"), connection_string(543, "/s"));
}

#[test]
fn the_first_port_is_5432() {
    assert_eq!(FIRST_PORT, 5432);
    assert_eq!(factory().next_port(), 5432);
}

#[test]
fn ports_go_up_by_one_and_never_repeat() {
    let mut f = factory();
    let mut seen = Vec::new();
    for i in 0..100u32 {
        let port = f.allocate_port();
        assert_eq!(port, 5432 + i);
        assert!(!seen.contains(&port));
        seen.push(port);
        assert_eq!(f.next_port(), 5433 + i);
    }
}

#[test]
fn allocating_a_port_keeps_the_directories() {
    let mut f = factory();
    f.allocate_port();
    assert_eq!(f.socket_dir(), "/tmp/sock.1");
    assert_eq!(f.cache_dir(), "/tmp/cache.1");
    assert_eq!(f.config(), TmpPostgrustFactory::build_config("/tmp/sock.1"));
}

#[test]
fn a_path_below_a_directory() {
    assert_eq!(join_path("/tmp/db.1", "PG_VERSION"), "/tmp/db.1/PG_VERSION");
    assert_eq!(join_path("/tmp/db.1", "postgresql.conf"), "/tmp/db.1/postgresql.conf");
}
