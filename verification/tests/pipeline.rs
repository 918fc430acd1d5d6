use std::future::Future;
use std::sync::{Arc, Mutex};

use actix_web::dev::{Service, ServiceResponse};
use actix_web::error::{ErrorBadRequest, ErrorInternalServerError};
use actix_web::http::StatusCode;
use actix_web::test::{call_service, init_service, try_call_service, TestRequest};
use actix_web::{web, App, Error, HttpMessage, HttpResponse};
use root_span::attribute::{Attribute, Value};
use root_span::host::{end_root_span, read_request};
use root_span::request::Request;
use root_span::span::{Phase, RootSpan};
use root_span::{DefaultRootSpanBuilder, RootSpanBuilder};
use tracing::Span;

struct RequestId(String);

fn run<F: Future>(work: F) -> F::Output {
    actix_web::rt::System::new().block_on(work)
}

fn write(name: &str, value: Value) -> Attribute {
    Attribute { name: name.to_string(), value }
}

fn text(s: &str) -> Value {
    Value::Text(s.to_string())
}

async fn found() -> HttpResponse {
    HttpResponse::Ok().finish()
}

async fn broken() -> Result<HttpResponse, Error> {
    Err(ErrorInternalServerError("db down"))
}

#[test]
fn request_of_a_route_is_read_with_its_template() {
    let seen: Arc<Mutex<Vec<Request>>> = Arc::new(Mutex::new(Vec::new()));
    let sink = seen.clone();
    run(async move {
        let app = init_service(
            App::new()
                .wrap_fn(move |req, srv| {
                    let client = req.connection_info().realip_remote_addr().map(str::to_owned);
                    let id = req.extensions().get::<RequestId>().map(|id| id.0.clone());
                    sink.lock().unwrap().push(read_request(&req, client, id));
                    srv.call(req)
                })
                .wrap_fn(|req, srv| {
                    req.extensions_mut().insert(RequestId("req-7f3a".to_string()));
                    srv.call(req)
                })
                .route("/users/{id}", web::get().to(found)),
        )
        .await;
        let req = TestRequest::get()
            .uri("/users/42")
            .peer_addr("192.0.2.7:4312".parse().unwrap())
            .to_request();
        let res = call_service(&app, req).await;
        assert_eq!(res.status(), StatusCode::OK);
    });
    assert_eq!(
        *seen.lock().unwrap(),
        vec![Request {
            method: "GET".to_string(),
            path: "/users/42".to_string(),
            route_template: Some("/users/{id}".to_string()),
            client_address: Some("192.0.2.7".to_string()),
            request_id: Some("req-7f3a".to_string()),
        }]
    );
}

#[test]
fn request_of_no_route_is_read_without_a_template() {
    let seen: Arc<Mutex<Vec<Request>>> = Arc::new(Mutex::new(Vec::new()));
    let sink = seen.clone();
    run(async move {
        let app = init_service(
            App::new()
                .wrap_fn(move |req, srv| {
                    sink.lock().unwrap().push(read_request(&req, None, None));
                    srv.call(req)
                })
                .route("/users/{id}", web::get().to(found)),
        )
        .await;
        let req = TestRequest::post().uri("/nowhere/at/all").to_request();
        let res = call_service(&app, req).await;
        assert_eq!(res.status(), StatusCode::NOT_FOUND);
    });
    assert_eq!(
        *seen.lock().unwrap(),
        vec![Request {
            method: "POST".to_string(),
            path: "/nowhere/at/all".to_string(),
            route_template: None,
            client_address: None,
            request_id: None,
        }]
    );
}

#[test]
fn routed_get_with_ok_response_from_start_to_end() {
    let seen: Arc<Mutex<Vec<RootSpan>>> = Arc::new(Mutex::new(Vec::new()));
    let sink = seen.clone();
    run(async move {
        let app = init_service(
            App::new()
                .wrap_fn(move |req, srv| {
                    let id = req.extensions().get::<RequestId>().map(|id| id.0.clone());
                    let mut span =
                        DefaultRootSpanBuilder::on_request_start(&read_request(&req, None, id));
                    let sink = sink.clone();
                    let fut = srv.call(req);
                    async move {
                        let outcome = fut.await;
                        let ended = end_root_span(Span::none(), &outcome);
                        for w in ended.writes() {
                            span.record(&w.name, w.value.clone());
                        }
                        span.end();
                        sink.lock().unwrap().push(span);
                        outcome
                    }
                })
                .wrap_fn(|req, srv| {
                    req.extensions_mut().insert(RequestId("req-0042".to_string()));
                    srv.call(req)
                })
                .route("/items/{id}", web::get().to(found)),
        )
        .await;
        let req = TestRequest::get().uri("/items/7").to_request();
        call_service(&app, req).await;
    });
    let spans = seen.lock().unwrap();
    assert_eq!(spans.len(), 1);
    let span = &spans[0];
    assert_eq!(span.phase(), Phase::Ended);
    assert_eq!(span.get("method"), Some(&text("GET")));
    assert_eq!(span.get("endpoint"), Some(&text("/items/{id}")));
    assert_eq!(span.get("request_id"), Some(&text("req-0042")));
    assert_eq!(span.get("status"), Some(&Value::Integer(200)));
    assert!(!span.contains("exception.message"));
    assert!(!span.contains("exception.details"));
}

#[test]
fn handler_error_under_a_status_that_a_middleware_rewrote() {
    let seen: Arc<Mutex<Vec<RootSpan>>> = Arc::new(Mutex::new(Vec::new()));
    let sink = seen.clone();
    run(async move {
        let app = init_service(
            App::new()
                .wrap_fn(|req, srv| {
                    let fut = srv.call(req);
                    async move {
                        let mut res = fut.await?;
                        if res.response().error().is_some() {
                            *res.response_mut().status_mut() = StatusCode::SERVICE_UNAVAILABLE;
                        }
                        Ok(res)
                    }
                })
                .wrap_fn(move |req, srv| {
                    let sink = sink.clone();
                    let fut = srv.call(req);
                    async move {
                        let outcome = fut.await;
                        sink.lock().unwrap().push(end_root_span(Span::none(), &outcome));
                        outcome
                    }
                })
                .route("/orders", web::post().to(broken)),
        )
        .await;
        let req = TestRequest::post().uri("/orders").to_request();
        let res = call_service(&app, req).await;
        assert_eq!(res.status(), StatusCode::SERVICE_UNAVAILABLE);
    });
    let spans = seen.lock().unwrap();
    assert_eq!(spans.len(), 1);
    assert_eq!(
        spans[0].writes().clone(),
        vec![
            write("exception.message", text("db down")),
            write("exception.details", text("\"db down\"")),
            write("status", Value::Integer(503)),
        ]
    );
}

#[test]
fn failure_that_precedes_every_response() {
    let seen: Arc<Mutex<Vec<RootSpan>>> = Arc::new(Mutex::new(Vec::new()));
    let sink = seen.clone();
    run(async move {
        let app = init_service(
            App::new()
                .wrap_fn(|_req, _srv| async {
                    Err::<ServiceResponse, Error>(ErrorBadRequest("malformed body"))
                })
                .wrap_fn(move |req, srv| {
                    let sink = sink.clone();
                    let fut = srv.call(req);
                    async move {
                        let outcome = fut.await;
                        sink.lock().unwrap().push(end_root_span(Span::none(), &outcome));
                        outcome
                    }
                })
                .route("/items/{id}", web::put().to(found)),
        )
        .await;
        let req = TestRequest::put().uri("/items/3").to_request();
        let res = try_call_service(&app, req).await;
        assert!(res.is_err());
    });
    let spans = seen.lock().unwrap();
    assert_eq!(spans.len(), 1);
    assert_eq!(spans[0].get("status"), Some(&Value::Integer(400)));
    assert_eq!(spans[0].get("exception.message"), Some(&text("malformed body")));
    assert_eq!(spans[0].get("exception.details"), Some(&text("\"malformed body\"")));
}
