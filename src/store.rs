use vstd::prelude::*;
use vstd::string::*;

use crate::copy::bytes_equal;
use crate::error::GsbError;

verus! {

/// A collect commits only when staging changed the tree: `head_tree` and
/// `new_tree` are the ids of the tree at HEAD and of the staged tree.
pub fn needs_commit(head_tree: &[u8], new_tree: &[u8]) -> (r: bool)
    ensures
        r == (head_tree@ != new_tree@),
{
    !bytes_equal(head_tree, new_tree)
}

pub open spec fn digit_char(d: nat) -> char {
    seq!['0', '1', '2', '3', '4', '5', '6', '7', '8', '9'][d as int]
}

/// The decimal digits of `n`, without leading zeros.
pub open spec fn decimal(n: nat) -> Seq<char>
    decreases n,
{
    if n < 10 {
        seq![digit_char(n)]
    } else {
        decimal(n / 10).push(digit_char(n % 10))
    }
}

fn digit_str(d: u64) -> (r: String)
    requires
        d < 10,
    ensures
        r@ == seq![digit_char(d as nat)],
{
    let digits = "0123456789";
    proof {
        reveal_strlit("0123456789");
    }
    let s = digits.substring_char(d as usize, d as usize + 1);
    proof {
        assert(s@ =~= seq![digit_char(d as nat)]);
    }
    s.to_owned()
}

/// Writes `n` in decimal.
pub fn decimal_string(n: u64) -> (r: String)
    ensures
        r@ == decimal(n as nat),
{
    let mut m: u64 = n;
    let mut acc = String::new();
    while m >= 10
        invariant
            decimal(n as nat) == decimal(m as nat) + acc@,
        decreases m,
    {
        let mut s = digit_str(m % 10);
        let ghost old_acc = acc@;
        s.append(acc.as_str());
        acc = s;
        proof {
            assert(decimal(m as nat) == decimal((m / 10) as nat).push(digit_char((m % 10) as nat)));
            assert(decimal((m / 10) as nat).push(digit_char((m % 10) as nat)) + old_acc
                =~= decimal((m / 10) as nat) + acc@);
        }
        m = m / 10;
    }
    let mut s = digit_str(m);
    s.append(acc.as_str());
    s
}

pub open spec fn commit_message_of(device: Seq<char>, timestamp: nat) -> Seq<char> {
    "gsb collect on "@ + device + " at "@ + decimal(timestamp)
}

/// The message of a collect commit: the canonical device id and the time,
/// in seconds since the epoch.
pub fn commit_message(device: &str, timestamp: u64) -> (r: String)
    ensures
        r@ == commit_message_of(device@, timestamp as nat),
{
    let mut r = "gsb collect on ".to_owned();
    r.append(device);
    r.append(" at ");
    let t = decimal_string(timestamp);
    r.append(t.as_str());
    r
}

/// A collect commit names the device it was made on.
pub proof fn lemma_commit_message_names_device(device: Seq<char>, timestamp: nat)
    ensures
        commit_message_of(device, timestamp).subrange(
            "gsb collect on "@.len() as int,
            ("gsb collect on "@.len() + device.len()) as int,
        ) == device,
{
    let p = "gsb collect on "@;
    let m = commit_message_of(device, timestamp);
    assert(m =~= p + (device + (" at "@ + decimal(timestamp))));
    assert(m.subrange(p.len() as int, (p.len() + device.len()) as int) =~= device);
}

/// How a pull ended when it did not fail.
#[derive(Clone, Copy, Debug, PartialEq, Eq, Structural)]
pub enum PullStep {
    /// Nothing new was fetched.
    UpToDate,
    /// The branch moves to the fetched commit and the tree is checked out.
    FastForward,
}

/// Classifies the merge analysis of a fetched commit: up to date, fast
/// forward, or anything else, which is refused as a merge conflict.
pub fn classify_merge(up_to_date: bool, fast_forward: bool) -> (r: Result<PullStep, GsbError>)
    ensures
        up_to_date ==> r == Ok::<PullStep, GsbError>(PullStep::UpToDate),
        !up_to_date && fast_forward ==> r == Ok::<PullStep, GsbError>(PullStep::FastForward),
        !up_to_date && !fast_forward ==> r matches Err(GsbError::MergeConflict),
{
    if up_to_date {
        Ok(PullStep::UpToDate)
    } else if fast_forward {
        Ok(PullStep::FastForward)
    } else {
        Err(GsbError::MergeConflict)
    }
}

} // verus!
