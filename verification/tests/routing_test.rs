use http_engine::handler::OrderStatus;
use http_engine::handler::PageNotFoundHandler;
use http_engine::handler::StaticPageHandler;
use http_engine::handler::WebServiceHandler;
use http_engine::request::HttpRequest;
use http_engine::request::Version;
use http_engine::response::HttpStatus;
use http_engine::router::RouteTarget;
use http_engine::router::Router;
use http_engine::server::Server;

#[test]
fn test_route_dispatch() {
    let api = HttpRequest::parse("GET /api/v1/shipping/orders HTTP/1.1");
    assert_eq!(Router::select(&api), RouteTarget::Api);

    let root = HttpRequest::parse("GET / HTTP/1.1");
    assert_eq!(Router::select(&root), RouteTarget::StaticPage);

    let health = HttpRequest::parse("GET /health HTTP/1.1");
    assert_eq!(Router::select(&health), RouteTarget::StaticPage);

    let post = HttpRequest::parse("POST /api/v1/shipping/orders HTTP/1.1");
    assert_eq!(Router::select(&post), RouteTarget::NotFound);

    let unknown = HttpRequest::parse("PUT / HTTP/1.1");
    assert_eq!(Router::select(&unknown), RouteTarget::NotFound);
}

#[test]
fn test_static_handler_file_names() {
    assert_eq!(StaticPageHandler::file_for("/"), "index.html");
    assert_eq!(StaticPageHandler::file_for("/health"), "health.html");
    assert_eq!(StaticPageHandler::file_for("/style.css"), "style.css");
    assert_eq!(StaticPageHandler::file_for(""), "index.html");
}

#[test]
fn test_static_handler_responses() {
    let index = StaticPageHandler::handle("/", Some("<html>home</html>".into()), None);
    assert_eq!(*index.status_code(), HttpStatus::OK);
    assert_eq!(index.body(), "<html>home</html>");

    let css = StaticPageHandler::handle("/style.css", Some("body {}".into()), None);
    assert_eq!(css.headers(), "Content-Type: text/css\r\nServer: nginx/1.14.1\r\n");
    assert_eq!(css.body(), "body {}");

    let js = StaticPageHandler::handle("/app.js", Some("let x = 1;".into()), None);
    assert_eq!(js.headers(), "Content-Type: text/javascript\r\nServer: nginx/1.14.1\r\n");

    let page = StaticPageHandler::handle("/about.html", Some("about".into()), None);
    assert_eq!(page.headers(), "Content-Type: text/html\r\nServer: nginx/1.14.1\r\n");

    let missing = StaticPageHandler::handle("/gone.html", None, Some("404 page".into()));
    assert_eq!(*missing.status_code(), HttpStatus::NOT_FOUND);
    assert_eq!(missing.body(), "404 page");
}

#[test]
fn test_web_service_handler() {
    let json = "[{\"order_id\":1,\"order_date\":\"2022-01-01\",\"order_status\":true}]";
    let served = WebServiceHandler::handle("/api/shipping/orders", Some(json.into()), None);
    assert_eq!(*served.status_code(), HttpStatus::OK);
    assert_eq!(served.body(), json);
    assert_eq!(
        served.headers(),
        "Content-Type: application/json\r\nServer: nginx/1.14.1\r\n"
    );

    let wrong_route = WebServiceHandler::handle("/api/else", Some(json.into()), Some("404".into()));
    assert_eq!(*wrong_route.status_code(), HttpStatus::NOT_FOUND);
    assert_eq!(wrong_route.body(), "404");

    let no_data = WebServiceHandler::handle("/api/shipping/orders", None, None);
    assert_eq!(*no_data.status_code(), HttpStatus::NOT_FOUND);
}

#[test]
fn test_not_found_handler() {
    let response = PageNotFoundHandler::handle(Some("not here".into()));
    assert_eq!(*response.status_code(), HttpStatus::NOT_FOUND);
    assert_eq!(*response.version(), Version::V1_1);
    assert_eq!(response.body(), "not here");
}

#[test]
fn test_order_status_fields() {
    let order = OrderStatus::new(7, "2022-09-24".into(), true);
    assert_eq!(order.order_id(), 7);
    assert_eq!(order.order_date(), "2022-09-24");
    assert!(order.order_status());
}

#[test]
fn test_server_holds_address() {
    let server = Server::new("127.0.0.1:3000");
    assert_eq!(server.socket_addr(), "127.0.0.1:3000");
}
