use vstd::prelude::*;

verus! {

/// The two kinds of benchmark host.
#[derive(Debug, Clone, Copy, PartialEq, Eq, Structural)]
pub enum EndpointType {
    Server,
    Client,
}

impl EndpointType {
    /// The lower-case name of the endpoint kind.
    pub fn name(&self) -> (r: &'static str)
        ensures
            r@ == endpoint_name(*self),
    {
        match self {
            EndpointType::Server => "server",
            EndpointType::Client => "client",
        }
    }
}

pub open spec fn endpoint_name(e: EndpointType) -> Seq<char> {
    match e {
        EndpointType::Server => "server"@,
        EndpointType::Client => "client"@,
    }
}

/// How many hosts of each kind a run uses.
#[derive(Debug, Clone, Copy, PartialEq, Eq, Structural)]
pub struct HostCount {
    pub clients: u16,
    pub servers: u16,
}

/// The configuration of a benchmark run: built once at start-up and passed
/// by reference to whatever needs it.
pub struct State {
    pub version: &'static str,
    pub repo: &'static str,
    pub branch: &'static str,
    pub s3_log_bucket: &'static str,
    pub s3_resource_folder: &'static str,
    pub cloudfront_url: &'static str,
    pub cloud_watch_group: &'static str,
    pub region: &'static str,
    pub vpc_region: &'static str,
    pub instance_type: &'static str,
    pub instance_profile: &'static str,
    pub subnet_tag_value: (&'static str, &'static str),
    pub ssh_key_name: &'static str,
    pub host_count: HostCount,
    pub workspace_dir: &'static str,
    /// Seconds after which a host shuts itself down.
    pub shutdown_time_sec: u64,
    /// The TCP port on which workers accept their coordinator.
    pub russula_port: u16,
}

impl State {
    /// The configuration that benchmark runs use unless told otherwise.
    pub fn new() -> (r: Self)
        ensures
            r.version@ == "v1.0.18"@,
            r.repo@ == "https://github.com/aws/s2n-quic.git"@,
            r.branch@ == "ak-netbench-sync"@,
            r.s3_log_bucket@ == "netbenchrunnerlogs"@,
            r.s3_resource_folder@ == "TS"@,
            r.cloudfront_url@ == "http://d2jusruq1ilhjs.cloudfront.net"@,
            r.cloud_watch_group@ == "netbench_runner_logs"@,
            r.region@ == "us-west-1"@,
            r.vpc_region@ == "us-east-1"@,
            r.instance_type@ == "c5.4xlarge"@,
            r.instance_profile@ == "NetbenchRunnerInstanceProfile"@,
            r.subnet_tag_value.0@ == "tag:aws-cdk:subnet-name"@,
            r.subnet_tag_value.1@ == "public-subnet-for-runners-in-us-east-1"@,
            r.ssh_key_name@ == "apoorvko_m1"@,
            r.host_count == (HostCount { clients: 3, servers: 2 }),
            r.workspace_dir@ == "./target/netbench"@,
            r.shutdown_time_sec == 60,
            r.russula_port == 8888,
    {
        State {
            version: "v1.0.18",
            repo: "https://github.com/aws/s2n-quic.git",
            branch: "ak-netbench-sync",
            s3_log_bucket: "netbenchrunnerlogs",
            s3_resource_folder: "TS",
            cloudfront_url: "http://d2jusruq1ilhjs.cloudfront.net",
            cloud_watch_group: "netbench_runner_logs",
            region: "us-west-1",
            vpc_region: "us-east-1",
            instance_type: "c5.4xlarge",
            instance_profile: "NetbenchRunnerInstanceProfile",
            subnet_tag_value: ("tag:aws-cdk:subnet-name", "public-subnet-for-runners-in-us-east-1"),
            ssh_key_name: "apoorvko_m1",
            host_count: HostCount { clients: 3, servers: 2 },
            workspace_dir: "./target/netbench",
            shutdown_time_sec: 60,
            russula_port: 8888,
        }
    }

    /// The public URL of a run's report: `<cloudfront_url>/<unique_id>`.
    pub fn cf_url(&self, unique_id: &str) -> (r: String)
        ensures
            r@ == self.cloudfront_url@ + "/"@ + unique_id@,
    {
        let mut r = String::from_str(self.cloudfront_url);
        r.append("/");
        r.append(unique_id);
        r
    }

    /// Where a run's logs go: `s3://<s3_log_bucket>/<unique_id>`.
    pub fn s3_path(&self, unique_id: &str) -> (r: String)
        ensures
            r@ == "s3://"@ + self.s3_log_bucket@ + "/"@ + unique_id@,
    {
        let mut r = String::from_str("s3://");
        r.append(self.s3_log_bucket);
        r.append("/");
        r.append(unique_id);
        r
    }

    /// The name of a run's security group: `netbench_<unique_id>`.
    pub fn security_group_name(&self, unique_id: &str) -> (r: String)
        ensures
            r@ == "netbench_"@ + unique_id@,
    {
        let mut r = String::from_str("netbench_");
        r.append(unique_id);
        r
    }

    /// The name of a run's host: `<endpoint kind>_<unique_id>`, the kind in
    /// lower case.
    pub fn instance_name(&self, unique_id: &str, endpoint_type: EndpointType) -> (r: String)
        ensures
            r@ == endpoint_name(endpoint_type) + "_"@ + unique_id@,
    {
        let mut r = String::from_str(endpoint_type.name());
        r.append("_");
        r.append(unique_id);
        r
    }
}

} // verus!
