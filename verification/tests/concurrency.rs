use std::sync::{Arc, Mutex};

use tiny_url::handlers::{create_entry, redirect_tiny_url, Params};
use tiny_url::status::{Error, StatusCode};
use tiny_url::store::TinyUrlServer;

fn serve(shared: &Arc<Mutex<TinyUrlServer>>, long_url: &str) -> Result<String, StatusCode> {
    let params = Params::parse(long_url)?;
    match shared.try_lock() {
        Ok(mut server) => create_entry(&mut server, params).map(|response| response.body),
        Err(_) => Err(Error::LockFailure.status()),
    }
}

#[test]
fn requests_through_one_lock_for_distinct_long_urls() {
    let count: usize = 16;
    let shared = Arc::new(Mutex::new(TinyUrlServer::new("localhost:8080")));
    let handles: Vec<Arc<Mutex<TinyUrlServer>>> = (0..count).map(|_| Arc::clone(&shared)).collect();
    let mut short_urls: Vec<String> = Vec::new();
    for (i, handle) in handles.iter().enumerate().rev() {
        short_urls.push(serve(handle, &format!("https://example.com/page/{}", i)).unwrap());
    }
    assert_eq!(shared.lock().unwrap().len(), count);
    short_urls.sort();
    short_urls.dedup();
    assert_eq!(short_urls.len(), count);
}

#[test]
fn requests_through_one_lock_for_one_long_url() {
    let count: usize = 16;
    let shared = Arc::new(Mutex::new(TinyUrlServer::new("localhost:8080")));
    let handles: Vec<Arc<Mutex<TinyUrlServer>>> = (0..count).map(|_| Arc::clone(&shared)).collect();
    let mut short_urls: Vec<String> = Vec::new();
    for handle in handles.iter() {
        short_urls.push(serve(handle, "https://example.com/shared").unwrap());
    }
    assert_eq!(shared.lock().unwrap().len(), 1);
    short_urls.dedup();
    assert_eq!(short_urls.len(), 1);
}

#[test]
fn held_lock_is_a_lock_failure() {
    let shared = Arc::new(Mutex::new(TinyUrlServer::new("localhost:8080")));
    let held = shared.lock().unwrap();
    assert_eq!(serve(&shared, "https://example.com/a"), Err(StatusCode::InternalServerError));
    assert_eq!(serve(&shared, "not a url"), Err(StatusCode::BadRequest));
    assert_eq!(held.len(), 0);
    drop(held);
    let short_url = serve(&shared, "https://example.com/a").unwrap();
    let server = shared.lock().unwrap();
    assert_eq!(server.len(), 1);
    let code = &short_url["http://localhost:8080/".len()..];
    assert_eq!(redirect_tiny_url(&server, code).unwrap().location, "https://example.com/a");
}
