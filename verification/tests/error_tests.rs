use va_tool::error::{Error, ErrorKind};

#[test]
fn plain_messages_render_exactly() {
    assert_eq!(Error::logger().message(), "logger error");
    assert_eq!(Error::config().message(), "config parse error");
    assert_eq!(Error::signal().message(), "subscription to signals failed");
    assert_eq!(Error::source_spawn().message(), "source-spawn thread error");
    assert_eq!(Error::source_stop().message(), "source stop error");
    assert_eq!(
        Error::udp_url_missing_host().message(),
        "source-udp - missing url host"
    );
    assert_eq!(
        Error::udp_fifo_not_initialized().message(),
        "source-udp - fifo is not initializer. call open first"
    );
    assert_eq!(
        Error::udp_fifo_pop_empty().message(),
        "source-udp - no data after fifo pop"
    );
}

#[test]
fn messages_with_reasons_embed_them() {
    assert_eq!(
        Error::url_parse("udp://".to_string()).message(),
        "url-parse error (:url-raw udp://)"
    );
    assert_eq!(
        Error::source_join("boom".to_string()).message(),
        "source-join error (:reason boom)"
    );
    assert_eq!(
        Error::source_input_lock("poisoned".to_string()).message(),
        "lock input inside source to read data failed (:reason poisoned)"
    );
    assert_eq!(
        Error::udp_fifo_lock("poisoned".to_string()).message(),
        "source-udp - fifo lock error (:reason poisoned)"
    );
    assert_eq!(
        Error::udp_fifo_cvar_wait("interrupted".to_string()).message(),
        "source-udp - condvar wait error (:reason interrupted)"
    );
    assert_eq!(
        Error::udp_domain_to_ipv4("example.com".to_string()).message(),
        "source-udp - domain to ipv4 conversion error (:domain example.com)"
    );
}

#[test]
fn messages_render_ports_and_groups_in_decimal() {
    assert_eq!(
        Error::udp_socket_bind("230.1.2.3".to_string(), 5500).message(),
        "source-udp - bind error (:host 230.1.2.3 :port 5500)"
    );
    assert_eq!(
        Error::udp_socket_bind("h".to_string(), 0).message(),
        "source-udp - bind error (:host h :port 0)"
    );
    assert_eq!(
        Error::udp_socket_bind("h".to_string(), 65535).message(),
        "source-udp - bind error (:host h :port 65535)"
    );
    assert_eq!(
        Error::udp_join_multicast_v4("230.1.2.3".to_string(), 5500, "0.0.0.0".to_string())
            .message(),
        "source-udp - join multicast v4 error (:host 230.1.2.3 :port 5500 :group 0.0.0.0)"
    );
    assert_eq!(
        Error::udp_join_multicast_v6("ff02::1".to_string(), 5500, 0).message(),
        "source-udp - join multicast v6 error (:host ff02::1 :port 5500 :group 0)"
    );
}

#[test]
fn join_error_carries_the_panic_text() {
    // The typed join error preserves a panic's message.
    let e = Error::source_join("worker panicked: boom".to_string());
    assert_eq!(e.kind, ErrorKind::SourceJoin("worker panicked: boom".to_string()));
    assert!(e.message().contains("worker panicked: boom"));
}
