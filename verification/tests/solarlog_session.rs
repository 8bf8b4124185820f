use grelsolar::day::Day;
use grelsolar::http::HttpFailure;
use grelsolar::integration::solarlog::http_client::{Call, HttpClient, Progress, Reply, Step};
use grelsolar::integration::solarlog::{Client, Error, InverterStatus};
use grelsolar::retry::RetryPlan;
use serde_json::Value;

const TOKEN: &str = "Wazi4Y08JTGY1W56wqPMjMVOa7MxLttaB5n/1Z7NKvg=";
const POWER_QUERY: &str = r#"{"782":{"0":null}}"#;

/// A device that answers every login and every query in one way, and keeps
/// count of what it was sent.
struct Device {
    login: Result<Option<String>, HttpFailure>,
    answer: Result<String, HttpFailure>,
    logins: usize,
    queries: usize,
    cookies: Vec<String>,
    bodies: Vec<String>,
    pauses: Vec<u64>,
    now: u64,
}

fn device() -> Device {
    Device {
        login: Ok(Some(TOKEN.to_string())),
        answer: Ok(String::new()),
        logins: 0,
        queries: 0,
        cookies: Vec::new(),
        bodies: Vec::new(),
        pauses: Vec::new(),
        now: 0,
    }
}

fn server_error() -> HttpFailure {
    HttpFailure { status: Some(500) }
}

impl Device {
    fn reply(&mut self, step: Step) -> Reply {
        match step {
            Step::Login { user, password } => {
                assert_eq!(step_path(&Step::Login { user: user.clone(), password: password.clone() }), Some("/login"));
                assert_eq!(user, "user");
                assert_eq!(password, "password");
                self.logins += 1;
                Reply::Login(self.login.clone())
            }
            Step::Getjp { cookie, body } => {
                self.queries += 1;
                self.cookies.push(cookie);
                self.bodies.push(body);
                Reply::Getjp(self.answer.clone())
            }
            Step::Sleep { millis } => {
                self.pauses.push(millis);
                self.now += millis;
                Reply::Woke
            }
            Step::Park => Reply::Woke,
            Step::Logout { .. } => panic!("no operation hands out a logout"),
        }
    }

    fn run<C: Session>(&mut self, client: &mut C, first: Progress) -> Result<Option<Value>, Error> {
        let mut progress = first;
        loop {
            match progress {
                Progress::Pending(call, step) => {
                    assert!(call.attempts_made() <= 1 + call.retries());
                    let reply = self.reply(step);
                    progress = client.go_on(call, reply, self.now);
                }
                Progress::LoggedIn => return Ok(None),
                Progress::Answer(value) => return Ok(Some(value)),
                Progress::Failed(error) => return Err(error),
            }
        }
    }

    fn login(&mut self, client: &mut Client) -> Result<Option<Value>, Error> {
        let first = client.login(self.now);
        self.run(client, first)
    }

    fn current_power(&mut self, client: &mut Client) -> Result<i64, Error> {
        let first = client.get_current_power(self.now);
        let value = self.run(client, first)?.expect("a query ends with an answer");
        Client::extract_inverter_value_as_i64(&value, "782", 0)
    }

    fn current_power_on(&mut self, client: &mut HttpClient, plan: RetryPlan) -> Result<i64, Error> {
        let first = client.query(POWER_QUERY, plan, self.now);
        let value = self.run(client, first)?.expect("a query ends with an answer");
        Client::extract_inverter_value_as_i64(&value, "782", 0)
    }
}

/// What runs an operation on: the device client, or the session client below it.
trait Session {
    fn go_on(&mut self, call: Call, reply: Reply, now: u64) -> Progress;
}

impl Session for Client {
    fn go_on(&mut self, call: Call, reply: Reply, now: u64) -> Progress {
        self.resume(call, reply, now)
    }
}

impl Session for HttpClient {
    fn go_on(&mut self, call: Call, reply: Reply, now: u64) -> Progress {
        self.resume(call, reply, now)
    }
}

fn logged_in_session() -> (HttpClient, Device) {
    let mut client = HttpClient::new("password".to_string());
    let mut device = device();
    let first = client.login(false, RetryPlan::new(Vec::new()), 0);
    device.run(&mut client, first).expect("login failed in fixture");
    device.logins = 0;
    (client, device)
}

fn step_path(step: &Step) -> Option<&'static str> {
    step.path()
}

fn logged_in() -> (Client, Device) {
    let mut client = Client::new("password".to_string());
    let mut device = device();
    device.login(&mut client).expect("login failed in fixture");
    device.logins = 0;
    (client, device)
}

#[test]
fn test_login_ok() {
    let mut client = Client::new("password".to_string());
    let mut device = device();

    let result = device.login(&mut client);

    assert_eq!(device.logins, 1);
    assert!(result.is_ok());
    assert!(client.is_logged_in());
}

#[test]
fn test_login_with_wrong_password() {
    let mut client = Client::new("password".to_string());
    let mut device = device();
    device.login = Ok(None);

    let result = device.login(&mut client);

    assert_eq!(device.logins, 1);
    assert!(matches!(result, Err(Error::WrongPassword)));
    assert!(!client.is_logged_in());
    assert!(device.pauses.is_empty());
}

#[test]
fn test_login_with_server_error() {
    let mut client = Client::new("password".to_string());
    let mut device = device();
    device.login = Err(server_error());

    let result_1 = device.login(&mut client);
    let result_2 = device.login(&mut client);

    assert!(device.logins > 2, "should retry on server error");
    assert_eq!(device.logins, 5);
    assert!(matches!(result_1, Err(Error::RequestFailed(_))));
    assert!(
        matches!(result_2, Err(Error::RequestRejected)),
        "second login should be rejected by circuit breaker"
    );
}

#[test]
fn test_logout() {
    let (mut client, _device) = logged_in();

    let step = client.logout();

    assert_eq!(step, Some(Step::Logout { cookie: format!("SolarLog={TOKEN}") }));
    assert_eq!(step.unwrap().path(), Some("/logout"));
    let result = HttpClient::logged_out(&Some(Ok(())));
    assert!(result, "Logout should be successful");
    assert!(!client.is_logged_in());
}

#[test]
fn test_logout_with_server_error() {
    let (mut client, _device) = logged_in();

    let first = client.logout();
    let second = client.logout();

    assert!(first.is_some());
    assert!(second.is_none(), "should try to logout once");
    let result = HttpClient::logged_out(&Some(Err(server_error())));
    assert!(!result, "logout should fail due to server error");
    assert!(!client.is_logged_in());
}

#[test]
fn test_get_current_power() {
    let (mut client, mut device) = logged_in();
    device.answer = Ok(r#"{"782":{"0":"1234"}}"#.to_string());

    let power = device.current_power(&mut client);

    assert_eq!(device.queries, 1);
    assert_eq!(device.cookies, vec![format!("SolarLog={TOKEN}")]);
    assert_eq!(device.bodies, vec![format!(r#"token={TOKEN};{{"782":{{"0":null}}}}"#)]);
    assert_eq!(power.expect("failed to get current power"), 1234);
}

#[test]
fn test_get_status() {
    let (mut client, mut device) = logged_in();
    device.answer = Ok(r#"{"608":{"0":"On-grid"}}"#.to_string());

    let first = client.get_status(0);
    let value = device.run(&mut client, first).unwrap().unwrap();
    let status = Client::extract_inverter_status(&value);

    assert_eq!(device.bodies, vec![format!(r#"token={TOKEN};{{"608":{{"0":null}}}}"#)]);
    assert!(matches!(status, Ok(InverterStatus::OnGrid)));
}

fn daily_energy() -> String {
    let values = [
        21700, 9550, 23300, 10790, 18550, 16720, 11040, 22760, 27600, 25550, 27330, 27250, 26890,
        26300, 20500, 26360, 28800, 27390, 27540, 27560, 18850, 27870, 21030, 28430, 510,
    ];
    let entries: Vec<String> = values
        .iter()
        .enumerate()
        .map(|(i, value)| format!(r#"["{:02}.06.25",[{}]]"#, i + 1, value))
        .collect();
    format!(r#"{{"777":{{"0":[{}]}}}}"#, entries.join(","))
}

#[test]
fn test_get_energy_of_day() {
    let (mut client, mut device) = logged_in();
    device.answer = Ok(daily_energy());
    let day = Day::from_ymd_opt(2025, 6, 25).expect("cannot create day date");

    let first = client.get_energy_of_day(0);
    let value = device.run(&mut client, first).unwrap().unwrap();
    let energy = Client::extract_energy_of_day(&value, day);

    assert_eq!(device.bodies, vec![format!(r#"token={TOKEN};{{"777":{{"0":null}}}}"#)]);
    assert_eq!(energy.expect("failed to get energy of month"), 510);
}

#[test]
fn test_get_energy_of_month() {
    let (mut client, mut device) = logged_in();
    device.answer = Ok(r#"{"779":{"0":[["01.06.25",[550370]]]}}"#.to_string());
    let month = Day::from_ymd_opt(2025, 6, 1).expect("cannot create month date");

    let first = client.get_energy_of_month(0);
    let value = device.run(&mut client, first).unwrap().unwrap();
    let energy = Client::extract_energy_of_month(&value, month);

    assert_eq!(device.bodies, vec![format!(r#"token={TOKEN};{{"779":{{"0":null}}}}"#)]);
    assert_eq!(energy.expect("failed to get energy of month"), 550370);
}

#[test]
fn test_is_logged_in_true() {
    let (client, _device) = logged_in();
    assert!(client.is_logged_in());
}

#[test]
fn test_is_logged_in_false() {
    let client = Client::new("password".to_string());
    assert!(!client.is_logged_in());
}

#[test]
fn test_logout_without_login() {
    let mut client = Client::new("password".to_string());

    let step = client.logout();

    assert!(step.is_none());
    assert!(!HttpClient::logged_out(&None));
    assert!(!client.is_logged_in());
}

#[test]
fn test_client_with_server_error() {
    let (mut client, mut device) = logged_in();
    device.answer = Err(server_error());

    let result_call_1 = device.current_power(&mut client);
    let result_call_2 = device.current_power(&mut client);

    assert!(device.queries > 2, "should retry on server error");
    assert_eq!(device.queries, 5);
    assert!(
        matches!(result_call_1, Err(Error::RequestFailed(_))),
        "request should fail due to server error"
    );
    assert!(
        matches!(result_call_2, Err(Error::RequestRejected)),
        "circuit breaker should reject the request due to repeated failures"
    );
}

#[test]
fn test_query_with_query_impossible() {
    let (mut client, mut device) = logged_in();
    device.answer = Ok(r#"{{"QUERY IMPOSSIBLE 000"}}"#.to_string());

    let result_call_1 = device.current_power(&mut client);
    let result_call_2 = device.current_power(&mut client);

    assert_eq!(device.queries, 2, "should not retry on impossible query");
    assert!(
        matches!(result_call_1, Err(Error::QueryImpossible)),
        "request should fail due to impossible query"
    );
    assert!(
        matches!(result_call_2, Err(Error::QueryImpossible)),
        "circuit breaker should not reject the request for impossible query"
    );
}

#[test]
fn test_query_with_access_denied() {
    let (mut client, mut device) = logged_in();
    device.answer = Ok(r#"{{"ACCESS DENIED 000"}}"#.to_string());

    let result_call_1 = device.current_power(&mut client);
    let result_call_2 = device.current_power(&mut client);

    assert!(device.queries > 2, "should retry on access denied");
    assert_eq!(device.queries, 8);
    assert!(
        matches!(result_call_1, Err(Error::AccessDenied)),
        "request should fail due to access denied"
    );
    assert!(
        matches!(result_call_2, Err(Error::AccessDenied)),
        "circuit breaker should not reject the request for access denied"
    );
}

#[test]
fn test_new_http_client() {
    let password = String::from("test_password");
    let mut client = HttpClient::new(password.clone());
    assert!(!client.is_logged_in());
    match client.login(false, RetryPlan::new(Vec::new()), 0) {
        Progress::Pending(_, step) => {
            assert_eq!(step, Step::Login { user: "user".to_string(), password });
        }
        _ => panic!("a login without a session sends the request"),
    }
}

#[test]
fn test_client_new() {
    let password = String::from("test_password");
    let client = Client::new(password);
    assert!(!client.is_logged_in());
}

#[test]
fn test_error_for_response() {
    assert!(HttpClient::validate_query_response(r#"{"780": 3628}"#).is_ok());
    assert!(matches!(
        HttpClient::validate_query_response(r#"{{"QUERY IMPOSSIBLE 000"}}"#),
        Err(Error::QueryImpossible)
    ));
    assert!(matches!(
        HttpClient::validate_query_response(r#"{"780": "ACCESS DENIED"}"#),
        Err(Error::AccessDenied)
    ));
    assert_eq!(
        HttpClient::validate_query_response(r#"{"780": 3628}"#).unwrap(),
        r#"{"780": 3628}"#
    );
    assert!(matches!(
        HttpClient::validate_query_response("ACCESS DENIED and QUERY IMPOSSIBLE"),
        Err(Error::QueryImpossible)
    ));
}

#[test]
fn a_failing_query_is_tried_once_more_than_the_plan_has_pauses() {
    let (mut client, mut device) = logged_in();
    device.answer = Err(HttpFailure { status: None });

    let result = device.current_power(&mut client);

    assert!(matches!(result, Err(Error::RequestFailed(HttpFailure { status: None }))));
    assert_eq!(device.queries, 4);
    assert_eq!(device.pauses.len(), 3);
    assert!(device.pauses[0] <= 10);
    assert!(device.pauses[1] <= 100);
    assert!(device.pauses[2] <= 1000);

    let mut device = self::device();
    device.answer = Err(server_error());
    let mut client = HttpClient::new("password".to_string());
    let first = client.query(POWER_QUERY, RetryPlan::new(vec![5]), 0);
    let result = device.run(&mut client, first);
    assert!(matches!(result, Err(Error::RequestFailed(_))));
    assert_eq!(device.queries, 2);
    assert_eq!(device.pauses, vec![5]);

    let mut device = self::device();
    device.answer = Err(server_error());
    let mut client = HttpClient::new("password".to_string());
    let first = client.query(POWER_QUERY, RetryPlan::new(Vec::new()), 0);
    let result = device.run(&mut client, first);
    assert!(matches!(result, Err(Error::RequestFailed(_))));
    assert_eq!(device.queries, 1);
    assert!(device.pauses.is_empty());
}

#[test]
fn a_client_error_is_neither_retried_nor_counted() {
    let (mut client, mut device) = logged_in();
    device.answer = Err(HttpFailure { status: Some(404) });

    for _ in 0..10 {
        let result = device.current_power(&mut client);
        assert!(matches!(result, Err(Error::RequestFailed(HttpFailure { status: Some(404) }))));
    }

    assert_eq!(device.queries, 10);
    assert!(device.pauses.is_empty());
}

#[test]
fn an_open_breaker_lets_a_probe_through_after_the_cooldown() {
    let (mut client, mut device) = logged_in_session();
    device.answer = Err(server_error());
    device.now = 1000;
    let _ = device.current_power_on(&mut client, RetryPlan::new(vec![0, 0, 0]));
    let rejected = device.current_power_on(&mut client, RetryPlan::new(vec![0, 0, 0]));
    assert!(matches!(rejected, Err(Error::RequestRejected)));
    let sent = device.queries;
    assert_eq!(sent, 5);
    let opened = device.now;

    device.now = opened + 60000;
    let still = device.current_power_on(&mut client, RetryPlan::new(vec![0, 0, 0]));
    assert!(matches!(still, Err(Error::RequestRejected)));
    assert_eq!(device.queries, sent, "nothing is sent while the breaker is open");

    device.now = opened + 60001;
    device.answer = Ok(r#"{"782":{"0":"42"}}"#.to_string());
    let probe = device.current_power_on(&mut client, RetryPlan::new(vec![0, 0, 0]));
    assert_eq!(probe.unwrap(), 42);
    assert_eq!(device.queries, sent + 1);

    device.answer = Err(server_error());
    let after = device.current_power_on(&mut client, RetryPlan::new(vec![0, 0, 0]));
    assert!(matches!(after, Err(Error::RequestFailed(_))), "a probe that succeeds closes the breaker");
}

#[test]
fn a_failed_probe_opens_the_breaker_again() {
    let mut client = HttpClient::new("password".to_string());
    let failure = || Reply::Login(Err(server_error()));
    let mut now = 0;
    for _ in 0..5 {
        match client.login(false, RetryPlan::new(Vec::new()), now) {
            Progress::Pending(call, _) => {
                assert!(matches!(client.resume(call, failure(), now), Progress::Failed(_)));
            }
            _ => panic!("the breaker is closed"),
        }
        now += 1;
    }
    assert!(matches!(
        client.login(false, RetryPlan::new(Vec::new()), 60004),
        Progress::Failed(Error::RequestRejected)
    ));
    match client.login(false, RetryPlan::new(Vec::new()), 60005) {
        Progress::Pending(call, _) => {
            assert!(matches!(client.resume(call, failure(), 60010), Progress::Failed(_)));
        }
        _ => panic!("the cooldown is over"),
    }
    assert!(matches!(
        client.login(false, RetryPlan::new(Vec::new()), 120010),
        Progress::Failed(Error::RequestRejected)
    ));
    assert!(matches!(
        client.login(false, RetryPlan::new(Vec::new()), 120011),
        Progress::Pending(_, Step::Login { .. })
    ));
}

#[test]
fn access_denied_clears_the_token_and_the_retry_logs_in_once() {
    let (mut client, _device) = logged_in_session();
    let query = POWER_QUERY;

    let first = client.query(query, RetryPlan::new(vec![7]), 0);
    let Progress::Pending(call, step) = first else { panic!("the query goes out") };
    assert_eq!(
        step,
        Step::Getjp { cookie: format!("SolarLog={TOKEN}"), body: format!("token={TOKEN};{query}") }
    );

    let denied = client.resume(call, Reply::Getjp(Ok("ACCESS DENIED".to_string())), 1);
    assert!(!client.is_logged_in());
    let Progress::Pending(call, step) = denied else { panic!("the query is retried") };
    assert_eq!(step, Step::Sleep { millis: 7 });

    let Progress::Pending(call, step) = client.resume(call, Reply::Woke, 8) else {
        panic!("the retry begins")
    };
    assert_eq!(step, Step::Login { user: "user".to_string(), password: "password".to_string() });

    let healed = client.resume(call, Reply::Login(Ok(Some("fresh".to_string()))), 9);
    assert!(client.is_logged_in());
    let Progress::Pending(call, step) = healed else { panic!("the query goes out again") };
    assert_eq!(
        step,
        Step::Getjp { cookie: "SolarLog=fresh".to_string(), body: format!("token=fresh;{query}") }
    );
    assert_eq!(call.attempts_made(), 2);
    assert_eq!(call.retries(), 1);

    let answer = client.resume(call, Reply::Getjp(Ok(r#"{"782":{"0":"99"}}"#.to_string())), 10);
    let Progress::Answer(value) = answer else { panic!("the query is answered") };
    assert_eq!(Client::extract_inverter_value_as_i64(&value, "782", 0).unwrap(), 99);
}

#[test]
fn a_newer_token_is_not_cleared_by_an_older_denial() {
    let mut client = HttpClient::new("password".to_string());
    let Progress::Pending(login, _) = client.login(false, RetryPlan::new(Vec::new()), 0) else {
        panic!("the login goes out")
    };
    assert!(matches!(
        client.resume(login, Reply::Login(Ok(Some("older".to_string()))), 0),
        Progress::LoggedIn
    ));
    let Progress::Pending(old_call, step) = client.query("{}", RetryPlan::new(Vec::new()), 0)
    else {
        panic!("the query goes out")
    };
    assert_eq!(
        step,
        Step::Getjp { cookie: "SolarLog=older".to_string(), body: "token=older;{}".to_string() }
    );
    let Progress::Pending(login, _) = client.login(true, RetryPlan::new(Vec::new()), 0) else {
        panic!("the forced login goes out")
    };
    assert!(matches!(
        client.resume(login, Reply::Login(Ok(Some("newer".to_string()))), 1),
        Progress::LoggedIn
    ));

    let denied = client.resume(old_call, Reply::Getjp(Ok("ACCESS DENIED".to_string())), 2);

    assert!(matches!(denied, Progress::Failed(Error::AccessDenied)));
    assert!(client.is_logged_in());
    assert_eq!(client.logout(), Some(Step::Logout { cookie: "SolarLog=newer".to_string() }));
}

#[test]
fn two_operations_without_a_session_send_one_login() {
    let mut client = HttpClient::new("password".to_string());

    let Progress::Pending(first, step) = client.query("{}", RetryPlan::new(Vec::new()), 0) else {
        panic!("the first query logs in")
    };
    assert!(matches!(step, Step::Login { .. }));
    let Progress::Pending(second, step) = client.query("[]", RetryPlan::new(Vec::new()), 0) else {
        panic!("the second query waits")
    };
    assert_eq!(step, Step::Park);
    assert_eq!(step.path(), None);
    let Progress::Pending(second, step) = client.resume(second, Reply::Woke, 1) else {
        panic!("the second query still waits")
    };
    assert_eq!(step, Step::Park);

    let Progress::Pending(_, step) = client.resume(first, Reply::Login(Ok(Some("t".to_string()))), 2)
    else {
        panic!("the first query goes out")
    };
    assert_eq!(step, Step::Getjp { cookie: "SolarLog=t".to_string(), body: "token=t;{}".to_string() });
    assert_eq!(step.path(), Some("/getjp"));
    let Progress::Pending(_, step) = client.resume(second, Reply::Woke, 3) else {
        panic!("the second query goes out")
    };
    assert_eq!(step, Step::Getjp { cookie: "SolarLog=t".to_string(), body: "token=t;[]".to_string() });
}

#[test]
fn a_forced_login_replaces_the_session() {
    let mut client = HttpClient::new("password".to_string());
    let Progress::Pending(call, _) = client.login(false, RetryPlan::new(Vec::new()), 0) else {
        panic!("the login goes out")
    };
    assert!(matches!(client.resume(call, Reply::Login(Ok(Some("a".to_string()))), 0), Progress::LoggedIn));
    assert!(matches!(client.login(false, RetryPlan::new(Vec::new()), 0), Progress::LoggedIn));

    let Progress::Pending(call, step) = client.login(true, RetryPlan::new(Vec::new()), 0) else {
        panic!("a forced login goes out")
    };
    assert!(matches!(step, Step::Login { .. }));
    assert!(matches!(client.resume(call, Reply::Login(Ok(Some("b".to_string()))), 0), Progress::LoggedIn));
    assert_eq!(client.logout(), Some(Step::Logout { cookie: "SolarLog=b".to_string() }));
}

#[test]
fn a_reply_that_answers_nothing_changes_nothing() {
    let mut client = HttpClient::new("password".to_string());
    let Progress::Pending(call, step) = client.login(false, RetryPlan::new(vec![3]), 0) else {
        panic!("the login goes out")
    };
    let Progress::Pending(call, again) = client.resume(call, Reply::Woke, 1) else {
        panic!("the call goes on")
    };
    assert_eq!(again, step);
    let Progress::Pending(call, again) = client.resume(call, Reply::Getjp(Ok("{}".to_string())), 1)
    else {
        panic!("the call goes on")
    };
    assert_eq!(again, step);
    assert_eq!(call.attempts_made(), 1);
    assert!(matches!(client.resume(call, Reply::Login(Ok(None)), 1), Progress::Failed(Error::WrongPassword)));
}

#[test]
fn an_answer_that_is_no_json_is_an_error() {
    let (mut client, mut device) = logged_in();
    device.answer = Ok("not_json".to_string());

    let result = device.current_power(&mut client);

    assert!(matches!(result, Err(Error::ResponseJsonError(_))));
    assert_eq!(device.queries, 1);
    assert!(device.pauses.is_empty());
}

#[test]
fn a_client_error_leaves_the_count_of_failures() {
    let (mut client, mut device) = logged_in_session();
    device.answer = Err(server_error());
    let first = device.current_power_on(&mut client, RetryPlan::new(vec![0, 0, 0]));
    assert!(matches!(first, Err(Error::RequestFailed(_))));
    assert_eq!(device.queries, 4);

    for answer in [
        Err(HttpFailure { status: Some(404) }),
        Ok("QUERY IMPOSSIBLE".to_string()),
        Ok("not json".to_string()),
    ] {
        device.answer = answer;
        let unrecorded = device.current_power_on(&mut client, RetryPlan::new(Vec::new()));
        assert!(unrecorded.is_err());
    }
    assert_eq!(device.queries, 7);

    device.answer = Err(server_error());
    let fifth = device.current_power_on(&mut client, RetryPlan::new(Vec::new()));
    assert!(matches!(fifth, Err(Error::RequestFailed(_))));
    let rejected = device.current_power_on(&mut client, RetryPlan::new(Vec::new()));
    assert!(
        matches!(rejected, Err(Error::RequestRejected)),
        "four failures before the client errors and one after them open the breaker"
    );
    assert_eq!(device.queries, 8);
}
