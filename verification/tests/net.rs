use incoming::IntoIncoming;
use std::future::poll_fn;
use std::task::Poll;
use tokio::io::AsyncReadExt;
use tokio::io::AsyncWriteExt;

fn runtime() -> tokio::runtime::Runtime {
    tokio::runtime::Builder::new_current_thread()
        .enable_all()
        .build()
        .unwrap()
}

#[test]
fn tcp_drop_without_driving_releases_listener() {
    runtime().block_on(async {
        let listener = tokio::net::TcpListener::bind("127.0.0.1:0").await.unwrap();
        let addr = listener.local_addr().unwrap();
        let inc = listener.into_incoming();
        drop(inc);
        let rebound = tokio::net::TcpListener::bind(addr).await;
        assert!(rebound.is_ok());
    });
}

#[test]
fn tcp_drop_while_suspended_releases_listener() {
    runtime().block_on(async {
        let listener = tokio::net::TcpListener::bind("127.0.0.1:0").await.unwrap();
        let addr = listener.local_addr().unwrap();
        let mut inc = listener.into_incoming();

        let waker = futures_util::task::noop_waker();
        let mut cx = std::task::Context::from_waker(&waker);
        assert!(inc.poll_next(&mut cx).is_pending());

        drop(inc);
        let rebound = tokio::net::TcpListener::bind(addr).await;
        assert!(rebound.is_ok());
    });
}

#[test]
fn unix_yields_connections_in_submission_order() {
    runtime().block_on(async {
        let path = "/tmp/incoming_unix_adapter_test.sock";
        let _ = tokio::fs::remove_file(path).await;
        let listener = tokio::net::UnixListener::bind(path).unwrap();
        let mut inc = listener.into_incoming();

        let mut c1 = tokio::net::UnixStream::connect(path).await.unwrap();
        c1.write_all(b"one").await.unwrap();
        let mut c2 = tokio::net::UnixStream::connect(path).await.unwrap();
        c2.write_all(b"two").await.unwrap();

        let mut s1 = poll_fn(|cx| inc.poll_next(cx)).await.unwrap().unwrap();
        let mut s2 = poll_fn(|cx| inc.poll_next(cx)).await.unwrap().unwrap();

        let mut buf = [0u8; 3];
        s1.read_exact(&mut buf).await.unwrap();
        assert_eq!(&buf, b"one");
        s2.read_exact(&mut buf).await.unwrap();
        assert_eq!(&buf, b"two");

        drop(inc);
        let _ = tokio::fs::remove_file(path).await;
    });
}

#[test]
fn unix_stays_pending_without_clients() {
    runtime().block_on(async {
        let path = "/tmp/incoming_unix_pending_test.sock";
        let _ = tokio::fs::remove_file(path).await;
        let listener = tokio::net::UnixListener::bind(path).unwrap();
        let mut inc = listener.into_incoming();

        let waker = futures_util::task::noop_waker();
        let mut cx = std::task::Context::from_waker(&waker);
        assert!(matches!(inc.poll_next(&mut cx), Poll::Pending));

        drop(inc);
        let _ = tokio::fs::remove_file(path).await;
    });
}
