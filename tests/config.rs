use russula::{
    shutdown_user_data, Args, ClientContext, EndpointType, HostCount, InstanceDetails, Scenario,
    ServerContext, State,
};

#[test]
fn state_urls_and_names() {
    let state = State::new();
    assert_eq!(state.cf_url("run-42"), "http://d2jusruq1ilhjs.cloudfront.net/run-42");
    assert_eq!(state.s3_path("run-42"), "s3://netbenchrunnerlogs/run-42");
    assert_eq!(state.security_group_name("run-42"), "netbench_run-42");
    assert_eq!(state.instance_name("run-42", EndpointType::Server), "server_run-42");
    assert_eq!(state.instance_name("run-42", EndpointType::Client), "client_run-42");
    assert_eq!(state.cf_url(""), "http://d2jusruq1ilhjs.cloudfront.net/");
}

#[test]
fn state_defaults() {
    let state = State::new();
    assert_eq!(state.russula_port, 8888);
    assert_eq!(state.shutdown_time_sec, 60);
    assert_eq!(state.region, "us-west-1");
    assert_eq!(state.host_count, HostCount { clients: 3, servers: 2 });
    assert_eq!(EndpointType::Client.name(), "client");
}

#[test]
fn user_data_is_base64_shutdown_command() {
    assert_eq!(shutdown_user_data(60), "c3VkbyBzaHV0ZG93biAtUCArNjA=");
    assert_eq!(shutdown_user_data(0), "c3VkbyBzaHV0ZG93biAtUCArMA==");
    assert_eq!(shutdown_user_data(u32::MAX), "c3VkbyBzaHV0ZG93biAtUCArNDI5NDk2NzI5NQ==");
}

#[test]
fn scenario_file_stem() {
    let sc = Scenario::new("scripts/request_response.json", 1, 2).unwrap();
    assert_eq!(sc.name, "request_response.json");
    assert_eq!(sc.file_stem(), Some("request_response"));
    assert_eq!(sc.clients, 1);
    assert_eq!(sc.servers, 2);
    let bare = Scenario::new("incast", 3, 1).unwrap();
    assert_eq!(bare.file_stem(), Some("incast"));
    assert!(Scenario::new("scripts/..", 1, 1).is_none());
    assert!(Scenario::new("/", 1, 1).is_none());
    let args = Args { scenario_file: "scripts/request_response.json".to_string() };
    assert_eq!(Scenario::new(&args.scenario_file, 0, 0).unwrap().path, args.scenario_file);
}

#[test]
fn testing_contexts() {
    let server = ServerContext::testing();
    assert!(server.testing);
    assert_eq!(server.netbench_port, 4433);
    assert_eq!(server.driver, "");
    let client = ClientContext::testing();
    assert!(client.testing);
    assert!(client.netbench_servers.is_empty());
    let details = InstanceDetails {
        subnet_id: "subnet-1".to_string(),
        security_group_id: "sg-1".to_string(),
        ami_id: "ami-1".to_string(),
        iam_role: "role".to_string(),
    };
    assert_eq!(details.clone().ami_id, "ami-1");
}
