use onedrive_api::api::{Api, Client, RawRequest, RawResponse, SimpleApi};
use onedrive_api::error::{Error, ErrorKind, Result};
use onedrive_api::util::DriveLocation;
use onedrive_api::DriveClient;
use std::cell::RefCell;

/// A client that records the requests it is given and answers each with `200` and the
/// request's URL as body.
struct Recorder {
    sent: RefCell<Vec<RawRequest>>,
}

impl Client for Recorder {
    fn execute_api(&self, req: RawRequest) -> Result<RawResponse> {
        let body = req.url.clone().into_bytes();
        self.sent.borrow_mut().push(req);
        Ok(RawResponse { status: 200, headers: vec![], body })
    }
}

#[test]
fn built_request_reaches_the_client() {
    let client = Recorder { sent: RefCell::new(vec![]) };
    let dc = DriveClient::new("tok".to_owned(), DriveLocation::me());
    let req = dc.get_drive().unwrap();
    let resp = SimpleApi::new(Ok(req.clone())).execute(&client).unwrap();
    assert_eq!(resp.status, 200);
    assert_eq!(resp.body, b"https://graph.microsoft.com/v1.0/drive".to_vec());
    let sent = client.sent.borrow();
    assert_eq!(sent.len(), 1);
    assert_eq!(sent[0].url, req.url);
    assert_eq!(sent[0].headers, req.headers);
}

#[test]
fn failed_request_is_not_sent() {
    let client = Recorder { sent: RefCell::new(vec![]) };
    let r = SimpleApi::new(Err(Error::invalid_request("Cannot build the request"))).execute(&client);
    match r {
        Err(e) => assert!(matches!(e.into_kind(), ErrorKind::InvalidRequest { reason: "Cannot build the request" })),
        Ok(_) => panic!("a request that failed to build was answered"),
    }
    assert!(client.sent.borrow().is_empty());
}
