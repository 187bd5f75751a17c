//! The deferred announcement a closed quiz is resolved with: a text
//! naming the correct choice and either congratulating the winners by
//! mention or stating that nobody answered correctly.

use vstd::prelude::*;

use crate::tally::Outcome;

verus! {

/// The character of one decimal digit.
pub open spec fn digit_of(d: nat) -> char {
    if d == 0 {
        '0'
    } else if d == 1 {
        '1'
    } else if d == 2 {
        '2'
    } else if d == 3 {
        '3'
    } else if d == 4 {
        '4'
    } else if d == 5 {
        '5'
    } else if d == 6 {
        '6'
    } else if d == 7 {
        '7'
    } else if d == 8 {
        '8'
    } else {
        '9'
    }
}

/// The decimal digits of a number, most significant first.
pub open spec fn dec_digits(v: nat) -> Seq<char>
    decreases v,
{
    if v < 10 {
        seq![digit_of(v)]
    } else {
        dec_digits(v / 10).push(digit_of(v % 10))
    }
}

/// The mention of one participant, by their decimal identity.
pub open spec fn mention(voter: u64) -> Seq<char> {
    "<@"@ + dec_digits(voter as nat) + ">"@
}

/// The winners' mentions, in listed order, separated by single spaces.
pub open spec fn mention_list(winners: Seq<u64>) -> Seq<char>
    decreases winners.len(),
{
    if winners.len() == 0 {
        Seq::empty()
    } else if winners.len() == 1 {
        mention(winners[0])
    } else {
        mention_list(winners.drop_last()) + " "@ + mention(winners.last())
    }
}

/// The announcement text for one outcome: the correct choice's text and
/// either the congratulated winners or the empty-winners notice.
pub open spec fn announcement_text(correct: Seq<char>, winners: Seq<u64>) -> Seq<char> {
    if winners.len() == 0 {
        "The correct answer is: **"@ + correct + "**. Nobody got it right..."@
    } else {
        "The correct answer is: **"@ + correct + "**. Congratulations to "@ + mention_list(
            winners,
        ) + "!"@
    }
}

fn digit_str(d: u64) -> (r: &'static str)
    requires
        d < 10,
    ensures
        r@ =~= seq![digit_of(d as nat)],
{
    match d {
        0 => {
            proof {
                reveal_strlit("0");
            }
            "0"
        },
        1 => {
            proof {
                reveal_strlit("1");
            }
            "1"
        },
        2 => {
            proof {
                reveal_strlit("2");
            }
            "2"
        },
        3 => {
            proof {
                reveal_strlit("3");
            }
            "3"
        },
        4 => {
            proof {
                reveal_strlit("4");
            }
            "4"
        },
        5 => {
            proof {
                reveal_strlit("5");
            }
            "5"
        },
        6 => {
            proof {
                reveal_strlit("6");
            }
            "6"
        },
        7 => {
            proof {
                reveal_strlit("7");
            }
            "7"
        },
        8 => {
            proof {
                reveal_strlit("8");
            }
            "8"
        },
        _ => {
            proof {
                reveal_strlit("9");
            }
            "9"
        },
    }
}

/// Writes a number in decimal, most significant digit first.
pub fn u64_to_dec(v: u64) -> (r: String)
    ensures
        r@ == dec_digits(v as nat),
    decreases v,
{
    let last = digit_str(v % 10);
    if v < 10 {
        let r = last.to_owned();
        proof {
            assert(r@ =~= dec_digits(v as nat));
        }
        r
    } else {
        let prefix = u64_to_dec(v / 10);
        let r = prefix.concat(last);
        proof {
            assert(r@ =~= dec_digits((v / 10) as nat).push(digit_of((v % 10) as nat)));
        }
        r
    }
}

/// Builds the announcement for one outcome.
pub fn announcement(outcome: &Outcome) -> (s: String)
    ensures
        s@ == announcement_text(outcome.correct@, outcome.winners@),
{
    let mut s = String::new();
    s.append("The correct answer is: **");
    s.append(outcome.correct.as_str());
    if outcome.winners.len() == 0 {
        s.append("**. Nobody got it right...");
        proof {
            assert(s@ =~= announcement_text(outcome.correct@, outcome.winners@));
        }
        s
    } else {
        s.append("**. Congratulations to ");
        let n = outcome.winners.len();
        let mut mentions = String::new();
        let mut i: usize = 0;
        while i < n
            invariant
                0 <= i <= n,
                n == outcome.winners@.len(),
                mentions@ == mention_list(outcome.winners@.take(i as int)),
            decreases n - i,
        {
            if i > 0 {
                mentions.append(" ");
            }
            mentions.append("<@");
            let digits = u64_to_dec(outcome.winners[i]);
            mentions.append(digits.as_str());
            mentions.append(">");
            proof {
                let w = outcome.winners@;
                assert(w.take(i + 1).drop_last() =~= w.take(i as int));
                assert(w.take(i + 1).last() == w[i as int]);
                if i == 0 {
                    assert(mentions@ =~= mention(w[0]));
                    assert(mentions@ =~= mention_list(w.take(1)));
                } else {
                    assert(mentions@ =~= mention_list(w.take(i as int)) + " "@ + mention(
                        w[i as int],
                    ));
                    assert(mentions@ =~= mention_list(w.take(i + 1)));
                }
            }
            i = i + 1;
        }
        proof {
            assert(outcome.winners@.take(n as int) =~= outcome.winners@);
        }
        let s = s.concat(mentions.as_str());
        let s = s.concat("!");
        proof {
            assert(s@ =~= announcement_text(outcome.correct@, outcome.winners@));
        }
        s
    }
}

} // verus!
