//! What firewall rules mean for a packet.
//!
//! A chain is a list of rules, and the first one that matches a packet decides
//! its fate. Here the arguments of `iptables` are read as what they do to a
//! chain, so that the lists of rules can be held to what they are for.
use vstd::prelude::*;

verus! {

/// What the rules look at in a packet.
pub struct Packet {
    pub in_if: Seq<char>,
    pub out_if: Seq<char>,
    pub src: Seq<char>,
    pub dst: Seq<char>,
    pub proto: Seq<char>,
    pub dst_port: Seq<char>,
    pub reply: bool,
}

/// Does a packet match the options of a rule? They come in pairs of a name and
/// a value, and all must agree; `covers` says which addresses an address or a
/// subnet stands for. An option that is not known matches nothing.
pub open spec fn matches_packet(options: Seq<Seq<char>>, p: Packet, covers: spec_fn(Seq<char>, Seq<char>) -> bool) -> bool
    decreases options.len(),
{
    if options.len() < 2 {
        options.len() == 0
    } else {
        let name = options[0];
        let value = options[1];
        let rest = matches_packet(options.skip(2), p, covers);
        if name == "-i"@ {
            value == p.in_if && rest
        } else if name == "-o"@ {
            value == p.out_if && rest
        } else if name == "-s"@ {
            covers(value, p.src) && rest
        } else if name == "-d"@ {
            covers(value, p.dst) && rest
        } else if name == "-p"@ {
            value == p.proto && rest
        } else if name == "--dport"@ {
            value == p.dst_port && rest
        } else if name == "--state"@ {
            (value == "RELATED,ESTABLISHED"@ ==> p.reply) && rest
        } else if name == "-m"@ || name == "-j"@ {
            rest
        } else {
            false
        }
    }
}

/// Where the options of a rule send a packet that they match.
pub open spec fn target_of(options: Seq<Seq<char>>) -> Option<Seq<char>>
    decreases options.len(),
{
    if options.len() < 2 {
        None
    } else if options[0] == "-j"@ {
        Some(options[1])
    } else {
        target_of(options.skip(2))
    }
}

/// The fate of a packet in a chain: that of the first rule that matches it.
pub open spec fn fate(chain: Seq<Seq<Seq<char>>>, p: Packet, covers: spec_fn(Seq<char>, Seq<char>) -> bool) -> Option<Seq<char>>
    decreases chain.len(),
{
    if chain.len() == 0 {
        None
    } else if matches_packet(chain[0], p, covers) {
        target_of(chain[0])
    } else {
        fate(chain.skip(1), p, covers)
    }
}

/// The chain `name` after `iptables` was run with arguments that put a rule at
/// its front, add one at its end, or delete the first that is the same.
pub open spec fn chain_after(name: Seq<char>, chain: Seq<Seq<Seq<char>>>, args: Seq<Seq<char>>) -> Seq<Seq<Seq<char>>> {
    if args.len() >= 3 && args[0] == "-I"@ && args[1] == name && args[2] == "1"@ {
        seq![args.skip(3)] + chain
    } else if args.len() >= 2 && args[0] == "-A"@ && args[1] == name {
        chain.push(args.skip(2))
    } else if args.len() >= 2 && args[0] == "-D"@ && args[1] == name {
        without_first(chain, args.skip(2))
    } else {
        chain
    }
}

/// A chain without the first rule with those options.
pub open spec fn without_first(chain: Seq<Seq<Seq<char>>>, options: Seq<Seq<char>>) -> Seq<Seq<Seq<char>>>
    decreases chain.len(),
{
    if chain.len() == 0 {
        chain
    } else if chain[0] == options {
        chain.skip(1)
    } else {
        seq![chain[0]] + without_first(chain.skip(1), options)
    }
}

/// Do the arguments ask whether a chain holds the very rule that other
/// arguments add to it?
pub open spec fn asks_for(name: Seq<char>, check: Seq<Seq<char>>, add: Seq<Seq<char>>) -> bool {
    &&& check.len() >= 2 && check[0] == "-C"@ && check[1] == name
    &&& add.len() >= 2 && add[1] == name
    &&& if add[0] == "-I"@ {
        add.len() >= 3 && add[2] == "1"@ && check.skip(2) == add.skip(3)
    } else {
        add[0] == "-A"@ && check.skip(2) == add.skip(2)
    }
}

/// Running the arguments one after the other.
pub open spec fn chain_after_all(name: Seq<char>, chain: Seq<Seq<Seq<char>>>, all: Seq<Seq<Seq<char>>>) -> Seq<Seq<Seq<char>>>
    decreases all.len(),
{
    if all.len() == 0 {
        chain
    } else {
        chain_after(name, chain_after_all(name, chain, all.drop_last()), all.last())
    }
}

/// The words that rules are made of are different words.
pub proof fn words_differ()
    ensures
        "-I"@ != "-A"@,
        "-I"@ != "-D"@,
        "-I"@ != "-C"@,
        "-A"@ != "-D"@,
        "-A"@ != "-C"@,
        "-D"@ != "-C"@,
        "-i"@ != "-o"@,
        "-i"@ != "-s"@,
        "-i"@ != "-d"@,
        "-i"@ != "-p"@,
        "-i"@ != "-m"@,
        "-i"@ != "-j"@,
        "-o"@ != "-s"@,
        "-o"@ != "-d"@,
        "-o"@ != "-p"@,
        "-o"@ != "-m"@,
        "-o"@ != "-j"@,
        "-s"@ != "-d"@,
        "-s"@ != "-p"@,
        "-s"@ != "-m"@,
        "-s"@ != "-j"@,
        "-d"@ != "-p"@,
        "-d"@ != "-m"@,
        "-d"@ != "-j"@,
        "-p"@ != "-m"@,
        "-p"@ != "-j"@,
        "-m"@ != "-j"@,
        "--state"@.len() == 7,
        "--dport"@.len() == 7,
        "--state"@ != "--dport"@,
        "-i"@.len() == 2,
        "-o"@.len() == 2,
        "-s"@.len() == 2,
        "-d"@.len() == 2,
        "-p"@.len() == 2,
        "-m"@.len() == 2,
        "-j"@.len() == 2,
        "ACCEPT"@ != "DROP"@,
        "ACCEPT"@ != "MASQUERADE"@,
        "FORWARD"@ != "INPUT"@,
        "-t"@ != "-I"@,
        "-t"@ != "-A"@,
        "-t"@ != "-D"@,
        "tcp"@.len() == 3,
{
    reveal_strlit("-I");
    reveal_strlit("-A");
    reveal_strlit("-D");
    reveal_strlit("-C");
    reveal_strlit("-i");
    reveal_strlit("-o");
    reveal_strlit("-s");
    reveal_strlit("-d");
    reveal_strlit("-p");
    reveal_strlit("-m");
    reveal_strlit("-j");
    reveal_strlit("-t");
    reveal_strlit("--state");
    reveal_strlit("--dport");
    reveal_strlit("ACCEPT");
    reveal_strlit("DROP");
    reveal_strlit("MASQUERADE");
    reveal_strlit("FORWARD");
    reveal_strlit("INPUT");
    reveal_strlit("tcp");
    assert("-I"@[1] == 'I' && "-A"@[1] == 'A' && "-D"@[1] == 'D' && "-C"@[1] == 'C' && "-t"@[1] == 't');
    assert("-i"@[1] == 'i' && "-o"@[1] == 'o' && "-s"@[1] == 's' && "-d"@[1] == 'd');
    assert("-p"@[1] == 'p' && "-m"@[1] == 'm' && "-j"@[1] == 'j');
    assert("--state"@[2] == 's' && "--dport"@[2] == 'd');
    assert("ACCEPT"@.len() == 6 && "DROP"@.len() == 4 && "MASQUERADE"@.len() == 10);
    assert("FORWARD"@.len() == 7 && "INPUT"@.len() == 5);
}

/// Does no rule of a chain match a packet?
pub open spec fn passes(chain: Seq<Seq<Seq<char>>>, p: Packet, covers: spec_fn(Seq<char>, Seq<char>) -> bool) -> bool {
    forall|i: int| 0 <= i < chain.len() ==> !matches_packet(#[trigger] chain[i], p, covers)
}

/// A packet that no rule of a chain matches meets the rules behind it.
pub proof fn passes_on(chain: Seq<Seq<Seq<char>>>, rest: Seq<Seq<Seq<char>>>, p: Packet, covers: spec_fn(Seq<char>, Seq<char>) -> bool)
    requires
        passes(chain, p, covers),
    ensures
        fate(chain + rest, p, covers) == fate(rest, p, covers),
    decreases chain.len(),
{
    if chain.len() == 0 {
        assert(chain + rest =~= rest);
    } else {
        assert((chain + rest)[0] == chain[0]);
        assert((chain + rest).skip(1) =~= chain.skip(1) + rest);
        assert(passes(chain.skip(1), p, covers)) by {
            assert forall|i: int| 0 <= i < chain.skip(1).len() implies !matches_packet(#[trigger] chain.skip(1)[i], p, covers) by {
                assert(chain.skip(1)[i] == chain[i + 1]);
            }
        }
        passes_on(chain.skip(1), rest, p, covers);
    }
}

/// A packet that a rule of a chain matches never meets the rules behind it.
pub proof fn stops_at(chain: Seq<Seq<Seq<char>>>, rest: Seq<Seq<Seq<char>>>, p: Packet, covers: spec_fn(Seq<char>, Seq<char>) -> bool)
    requires
        !passes(chain, p, covers),
    ensures
        fate(chain + rest, p, covers) == fate(chain, p, covers),
    decreases chain.len(),
{
    assert((chain + rest)[0] == chain[0]);
    assert((chain + rest).skip(1) =~= chain.skip(1) + rest);
    if !matches_packet(chain[0], p, covers) {
        assert(!passes(chain.skip(1), p, covers)) by {
            let i = choose|i: int| 0 <= i < chain.len() && matches_packet(#[trigger] chain[i], p, covers);
            assert(chain.skip(1)[i - 1] == chain[i]);
        }
        stops_at(chain.skip(1), rest, p, covers);
    }
}

/// What options with two interfaces and a target match: packets that go from
/// the one to the other.
pub proof fn between_matches(a: Seq<char>, b: Seq<char>, target: Seq<char>, p: Packet, covers: spec_fn(Seq<char>, Seq<char>) -> bool)
    ensures
        ({
            let o = seq!["-i"@, a, "-o"@, b, "-j"@, target];
            matches_packet(o, p, covers) == (p.in_if == a && p.out_if == b) && target_of(o) == Some(target)
        }),
{
    words_differ();
    let o = seq!["-i"@, a, "-o"@, b, "-j"@, target];
    let o1 = seq!["-o"@, b, "-j"@, target];
    let o2 = seq!["-j"@, target];
    assert(o.skip(2) =~= o1);
    assert(o1.skip(2) =~= o2);
    assert(o2.skip(2) =~= Seq::empty());
    reveal_with_fuel(matches_packet, 5);
    reveal_with_fuel(target_of, 5);
}

/// What options with two interfaces, a destination and a target match.
pub proof fn towards_matches(
    a: Seq<char>,
    b: Seq<char>,
    to: Seq<char>,
    target: Seq<char>,
    p: Packet,
    covers: spec_fn(Seq<char>, Seq<char>) -> bool,
)
    ensures
        ({
            let o = seq!["-i"@, a, "-o"@, b, "-d"@, to, "-j"@, target];
            matches_packet(o, p, covers) == (p.in_if == a && p.out_if == b && covers(to, p.dst)) && target_of(o) == Some(target)
        }),
{
    words_differ();
    let o = seq!["-i"@, a, "-o"@, b, "-d"@, to, "-j"@, target];
    let o1 = seq!["-o"@, b, "-d"@, to, "-j"@, target];
    let o2 = seq!["-d"@, to, "-j"@, target];
    let o3 = seq!["-j"@, target];
    assert(o.skip(2) =~= o1);
    assert(o1.skip(2) =~= o2);
    assert(o2.skip(2) =~= o3);
    assert(o3.skip(2) =~= Seq::empty());
    reveal_with_fuel(matches_packet, 6);
    reveal_with_fuel(target_of, 6);
}

/// What options with two interfaces that ask for replies match.
pub proof fn replies_match(a: Seq<char>, b: Seq<char>, target: Seq<char>, p: Packet, covers: spec_fn(Seq<char>, Seq<char>) -> bool)
    ensures
        ({
            let o = seq!["-i"@, a, "-o"@, b, "-m"@, "state"@, "--state"@, "RELATED,ESTABLISHED"@, "-j"@, target];
            matches_packet(o, p, covers) == (p.in_if == a && p.out_if == b && p.reply) && target_of(o) == Some(target)
        }),
{
    words_differ();
    let o = seq!["-i"@, a, "-o"@, b, "-m"@, "state"@, "--state"@, "RELATED,ESTABLISHED"@, "-j"@, target];
    let o1 = seq!["-o"@, b, "-m"@, "state"@, "--state"@, "RELATED,ESTABLISHED"@, "-j"@, target];
    let o2 = seq!["-m"@, "state"@, "--state"@, "RELATED,ESTABLISHED"@, "-j"@, target];
    let o3 = seq!["--state"@, "RELATED,ESTABLISHED"@, "-j"@, target];
    let o4 = seq!["-j"@, target];
    assert(o.skip(2) =~= o1);
    assert(o1.skip(2) =~= o2);
    assert(o2.skip(2) =~= o3);
    assert(o3.skip(2) =~= o4);
    assert(o4.skip(2) =~= Seq::empty());
    reveal_with_fuel(matches_packet, 7);
    reveal_with_fuel(target_of, 7);
}

/// What options with a source, an interface to leave by and a target match.
pub proof fn leaving_matches(from: Seq<char>, b: Seq<char>, target: Seq<char>, p: Packet, covers: spec_fn(Seq<char>, Seq<char>) -> bool)
    ensures
        ({
            let o = seq!["-s"@, from, "-o"@, b, "-j"@, target];
            matches_packet(o, p, covers) == (covers(from, p.src) && p.out_if == b) && target_of(o) == Some(target)
        }),
{
    words_differ();
    let o = seq!["-s"@, from, "-o"@, b, "-j"@, target];
    let o1 = seq!["-o"@, b, "-j"@, target];
    let o2 = seq!["-j"@, target];
    assert(o.skip(2) =~= o1);
    assert(o1.skip(2) =~= o2);
    assert(o2.skip(2) =~= Seq::empty());
    reveal_with_fuel(matches_packet, 5);
    reveal_with_fuel(target_of, 5);
}

} // verus!
