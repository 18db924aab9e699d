//! The programs of this library and the client that they serve.
//!
//! A program is named after the command of the client whose logins it keeps: for
//! the command `acme` there are `acme-quota-router` and `acme-plan-swap`. Such a
//! client calls itself `Acme Code`.

use vstd::prelude::*;
use vstd::string::*;
use crate::domain;
use crate::text;

verus! {

/// What a program does.
#[derive(Clone, Copy, Debug, PartialEq, Eq, Structural)]
pub enum Product {
    /// Speaks of accounts, and of the account that was left.
    QuotaRouter,
    /// Speaks of plans, and of the team plan.
    PlanSwap,
}

impl Product {
    /// Whether names read back from saved state are held to the rules for names.
    pub fn checks_names(self) -> (r: bool)
        ensures
            r == (self == Product::QuotaRouter),
    {
        match self {
            Product::QuotaRouter => true,
            Product::PlanSwap => false,
        }
    }
}

/// The command line client whose logins are saved and switched.
#[derive(Clone, Copy, Debug)]
pub struct Client {
    /// The command that runs it. Its directory, what it calls itself and the
    /// programs of this library are named after it.
    pub command: &'static str,
}

/// A program, given what it does and whom it serves.
#[derive(Clone, Copy, Debug)]
pub struct Program {
    pub product: Product,
    pub client: Client,
}

/// What the names of programs end in.
pub open spec fn suffix(product: Product) -> Seq<char> {
    match product {
        Product::QuotaRouter => "-quota-router"@,
        Product::PlanSwap => "-plan-swap"@,
    }
}

/// The name of a program.
pub open spec fn program_name(program: Program) -> Seq<char> {
    program.client.command@ + suffix(program.product)
}

impl Program {
    /// The name of the program. It is also the Keychain service that holds the
    /// saved credentials and the directory that holds the program's files.
    pub fn name(self) -> (r: String)
        ensures
            r@ == program_name(self),
    {
        let mut r = self.client.command.to_owned();
        match self.product {
            Product::QuotaRouter => r.append("-quota-router"),
            Product::PlanSwap => r.append("-plan-swap"),
        }
        r
    }
}

/// Whether `name` is that of the program that does `product` for the client with
/// the command `command`. A command obeys the rules for account names.
pub open spec fn is_named(name: Seq<char>, product: Product, command: Seq<char>) -> bool {
    name == command + suffix(product) && domain::name_error(command) is None
}

fn without_suffix(name: &str, suffix: &str) -> (r: Option<String>)
    ensures
        match r {
            Some(rest) => name@ == rest@ + suffix@,
            None => forall|rest: Seq<char>| name@ != #[trigger] (rest + suffix@),
        },
{
    let chars = text::to_chars(name);
    let end = text::to_chars(suffix);
    if chars.len() < end.len() {
        return None;
    }
    let cut: usize = chars.len() - end.len();
    let rest = text::from_chars(&chars, 0, cut);
    let tail = text::from_chars(&chars, cut, chars.len());
    if text::same_text(tail.as_str(), suffix) {
        assert(name@ =~= rest@ + suffix@);
        Some(rest)
    } else {
        assert forall|rest: Seq<char>| name@ != #[trigger] (rest + suffix@) by {
            if name@ == rest + suffix@ {
                assert(tail@ =~= suffix@);
            }
        }
        None
    }
}

/// What the program called `name` does, and the command of the client that it
/// serves. Nothing is known of a program that is called otherwise.
pub fn read_program_name(name: &str) -> (r: Option<(Product, String)>)
    ensures
        match r {
            Some((product, command)) => is_named(name@, product, command@),
            None => forall|product: Product, command: Seq<char>|
                !#[trigger] is_named(name@, product, command),
        },
{
    let router = without_suffix(name, "-quota-router");
    let swap = without_suffix(name, "-plan-swap");
    if let Some(command) = &router {
        if domain::validate_plan_name(command.as_str()).is_ok() {
            return Some((Product::QuotaRouter, command.clone()));
        }
    }
    if let Some(command) = &swap {
        if domain::validate_plan_name(command.as_str()).is_ok() {
            return Some((Product::PlanSwap, command.clone()));
        }
    }
    assert forall|product: Product, command: Seq<char>|
        !#[trigger] is_named(name@, product, command) by {
        if is_named(name@, product, command) {
            match product {
                Product::QuotaRouter => lemma_suffix(router->0@, command, suffix(product)),
                Product::PlanSwap => lemma_suffix(swap->0@, command, suffix(product)),
            }
        }
    }
    None
}

proof fn lemma_suffix(a: Seq<char>, b: Seq<char>, suffix: Seq<char>)
    requires
        a + suffix == b + suffix,
    ensures
        a == b,
{
    assert((a + suffix).take((a + suffix).len() - suffix.len()) =~= a);
    assert((b + suffix).take((b + suffix).len() - suffix.len()) =~= b);
}

/// A program's name tells what it does and whom it serves.
pub proof fn program_names_are_unique(
    name: Seq<char>,
    product: Product,
    command: Seq<char>,
    other_product: Product,
    other_command: Seq<char>,
)
    requires
        is_named(name, product, command),
        is_named(name, other_product, other_command),
    ensures
        product == other_product,
        command == other_command,
{
    reveal_strlit("-quota-router");
    reveal_strlit("-plan-swap");
    assert(suffix(Product::QuotaRouter).last() == 'r');
    assert(suffix(Product::PlanSwap).last() == 'p');
    assert((command + suffix(product)).last() == suffix(product).last());
    assert((other_command + suffix(other_product)).last() == suffix(other_product).last());
    lemma_suffix(command, other_command, suffix(product));
}

/// `c` as a capital, where it is a small ASCII letter.
pub open spec fn capital(c: char) -> char {
    if 'a' <= c <= 'z' {
        ((c as u8) - 32) as char
    } else {
        c
    }
}

/// What a client calls itself: its command with a capital, and a word more.
pub open spec fn client_title(client: Client) -> Seq<char> {
    let command = client.command@;
    (if command.len() > 0 {
        seq![capital(command[0])] + command.skip(1)
    } else {
        command
    }) + " Code"@
}

impl Client {
    /// What the client calls itself.
    pub fn title(self) -> (r: String)
        ensures
            r@ == client_title(self),
    {
        let chars = text::to_chars(self.command);
        let mut r = String::new();
        if chars.len() > 0 {
            let first: char = chars[0];
            if 'a' <= first && first <= 'z' {
                r.push(((first as u8) - 32u8) as char);
            } else {
                r.push(first);
            }
            r.append(text::from_chars(&chars, 1, chars.len()).as_str());
            assert(chars@.subrange(1, chars@.len() as int) =~= self.command@.skip(1));
        } else {
            assert(r@ =~= self.command@);
        }
        r.append(" Code");
        r
    }
}

} // verus!
