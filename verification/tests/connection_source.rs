use norgopolis_module::connection_source::ConnectionSource;

#[test]
fn yields_its_single_connection_once_and_nothing_after() {
    let mut source = ConnectionSource::new(String::from("the stdio connection"));
    assert_eq!(source.poll_next(), Some(String::from("the stdio connection")));
    assert_eq!(source.poll_next(), None);
    assert_eq!(source.poll_next(), None);
}

#[test]
fn the_connection_comes_out_unmodified() {
    let mut source = ConnectionSource::new(vec![9u8, 8, 7]);
    assert_eq!(source.poll_next(), Some(vec![9u8, 8, 7]));
}
