use async_std::io::ReadExt;
use async_std::io::WriteExt;
use async_std::os::unix::net::{UnixListener, UnixStream};
use async_std::task::block_on;

use pueue::socket::{
    plan_client, plan_listener, unix_bind_decision, BindAction, ClientStep, ListenerStep,
};

#[test]
fn unix_bind_protocol_and_echo() {
    block_on(async {
        let path = "/tmp/pueue_echo_test.sock".to_string();

        // Run the listener factory's protocol against the real file system; a
        // stale file from an earlier run is reclaimed, never a live one.
        let step = plan_listener(Some(path.clone()), None);
        let check_path = match step {
            ListenerStep::CheckUnixPath { path } => path,
            _ => panic!("expected the Unix path check"),
        };
        let exists = async_std::path::Path::new(&check_path).exists().await;
        let probe_connected = if exists {
            UnixStream::connect(&check_path).await.is_ok()
        } else {
            false
        };
        let listener = match unix_bind_decision(check_path, exists, probe_connected) {
            Ok(BindAction::Bind { path }) => UnixListener::bind(&path).await.unwrap(),
            Ok(BindAction::RemoveThenBind { path }) => {
                async_std::fs::remove_file(&path).await.unwrap();
                UnixListener::bind(&path).await.unwrap()
            }
            Err(_) => panic!("no live daemon should own the test socket"),
        };

        // A client with matching parameters reaches the bound listener, and a
        // byte written by one side is observable by the other.
        let step = plan_client(Some(path.clone()), None, true).unwrap();
        let mut client = match step {
            ClientStep::ConnectUnix { path } => UnixStream::connect(&path).await.unwrap(),
            _ => panic!("expected a Unix connect step"),
        };
        let (mut server, _) = listener.accept().await.unwrap();
        client.write_all(&[42u8]).await.unwrap();
        let mut buf = [0u8; 1];
        server.read_exact(&mut buf).await.unwrap();
        assert_eq!(buf[0], 42);
        server.write_all(&buf).await.unwrap();
        let mut back = [0u8; 1];
        client.read_exact(&mut back).await.unwrap();
        assert_eq!(back[0], 42);

        // A second listener factory call on the now-live path must fail with
        // AlreadyRunning, and the original listener stays usable.
        let exists = async_std::path::Path::new(&path).exists().await;
        assert!(exists);
        let probe = UnixStream::connect(&path).await.is_ok();
        assert!(probe);
        match unix_bind_decision(path.clone(), exists, probe) {
            Err(e) => assert!(e.message().contains("active pueue daemon")),
            Ok(_) => panic!("a live daemon must not be displaced"),
        }
        let accepted = listener.accept().await;
        assert!(accepted.is_ok());

        async_std::fs::remove_file(&path).await.ok();
    });
}
