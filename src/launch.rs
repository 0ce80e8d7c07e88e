use crate::protocol::{ascii, ascii_bytes};
use base64::Engine;
use vstd::prelude::*;

verus! {

/// What a host is launched with.
#[derive(Debug, Clone)]
pub struct InstanceDetails {
    pub subnet_id: String,
    pub security_group_id: String,
    pub ami_id: String,
    pub iam_role: String,
}

/// The standard base64 encoding (RFC 4648 alphabet, padded) of `input`.
pub uninterp spec fn base64_standard(input: Seq<u8>) -> Seq<char>;

/// Relies on `base64::engine::general_purpose::STANDARD.encode`: padded
/// standard base64, four characters for each started group of three bytes.
/// It panics when that length overflows `usize`, which `requires` rules out.
#[verifier::external_body]
fn encode_base64(input: &[u8]) -> (r: String)
    requires
        input@.len() / 3 * 4 + 4 <= usize::MAX,
    ensures
        r@ == base64_standard(input@),
        r@.len() == 4 * ((input@.len() + 2) / 3),
{
    base64::engine::general_purpose::STANDARD.encode(input)
}

/// The decimal digits of `n` as ASCII bytes, most significant first.
pub open spec fn decimal(n: nat) -> Seq<u8>
    decreases n,
{
    if n < 10 {
        seq![(48 + n) as u8]
    } else {
        decimal(n / 10).push((48 + n % 10) as u8)
    }
}

fn decimal_bytes(n: u32) -> (r: Vec<u8>)
    ensures
        r@ == decimal(n as nat),
        r@.len() <= 1 + n / 10,
    decreases n,
{
    if n < 10 {
        let d = (48 + n) as u8;
        let r = vec![d];
        proof {
            assert(r@ =~= seq![(48 + n) as u8]);
        }
        r
    } else {
        let mut r = decimal_bytes(n / 10);
        r.push((48 + n % 10) as u8);
        proof {
            let k = n / 10;
            assert(k >= 1);
            assert(k / 10 + 1 <= k) by (nonlinear_arith)
                requires
                    k >= 1,
            ;
        }
        r
    }
}

/// The shell command a host runs at boot so that it powers itself off after
/// `shutdown_min` minutes.
pub open spec fn shutdown_command(shutdown_min: nat) -> Seq<u8> {
    ascii("sudo shutdown -P +"@) + decimal(shutdown_min)
}

/// The user data a host is launched with: its shutdown command, base64
/// encoded.
pub fn shutdown_user_data(shutdown_min: u32) -> (r: String)
    ensures
        r@ == base64_standard(shutdown_command(shutdown_min as nat)),
{
    let mut cmd = ascii_bytes("sudo shutdown -P +");
    let mut digits = decimal_bytes(shutdown_min);
    proof {
        reveal_strlit("sudo shutdown -P +");
    }
    cmd.append(&mut digits);
    encode_base64(cmd.as_slice())
}

} // verus!
