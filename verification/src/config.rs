//! The configuration the supervised binary reports about itself, and
//! the collection of the output text it is parsed from.

use vstd::prelude::*;
use vstd::string::StringExecFns;

use crate::event::CommandEvent;
use crate::event::event_line;

verus! {

/// The server block of the reported configuration.
#[derive(Clone, Debug, PartialEq)]
pub struct ServerConfig {
    pub hostname: Option<String>,
    pub port: Option<u32>,
}

/// The reported configuration.
#[derive(Clone, Debug, PartialEq)]
pub struct Config {
    pub server: Option<ServerConfig>,
}

/// The text the configuration is parsed from: the text of every output
/// line, both pipes, concatenated in channel order.
pub open spec fn config_text(events: Seq<CommandEvent>) -> Seq<char>
    decreases events.len(),
{
    if events.len() == 0 {
        Seq::empty()
    } else {
        let rest = config_text(events.drop_first());
        match event_line(events[0]) {
            Some(l) => l + rest,
            None => rest,
        }
    }
}

/// Folds a drained event sequence into the text to parse.
pub fn collect_output(events: &Vec<CommandEvent>) -> (r: String)
    ensures
        r@ == config_text(events@),
{
    let mut out = String::new();
    let n = events.len();
    let mut i: usize = 0;
    assert(events@.skip(0) =~= events@);
    while i < n
        invariant
            n == events@.len(),
            0 <= i <= n,
            config_text(events@) =~= out@ + config_text(events@.skip(i as int)),
        decreases n - i,
    {
        proof {
            assert(events@.skip(i as int)[0] == events@[i as int]);
            assert(events@.skip(i as int).drop_first() =~= events@.skip(i + 1));
        }
        match &events[i] {
            CommandEvent::Stdout(s) => out.append(s.as_str()),
            CommandEvent::Stderr(s) => out.append(s.as_str()),
            _ => (),
        }
        i += 1;
    }
    proof {
        assert(config_text(events@.skip(n as int)) =~= Seq::<char>::empty());
        assert(config_text(events@) =~= out@);
    }
    out
}

} // verus!
