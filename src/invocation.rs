use vstd::prelude::*;

verus! {

/// The texts held by a sequence of strings.
pub open spec fn texts(v: Seq<String>) -> Seq<Seq<char>> {
    v.map_values(|s: String| s@)
}

/// A command line to run: a program and its arguments, each one discrete.
#[derive(Debug)]
pub struct Invocation {
    pub program: String,
    pub args: Vec<String>,
}

/// What an invocation runs, as text.
pub struct InvocationView {
    pub program: Seq<char>,
    pub args: Seq<Seq<char>>,
}

impl View for Invocation {
    type V = InvocationView;

    open spec fn view(&self) -> InvocationView {
        InvocationView { program: self.program@, args: texts(self.args@) }
    }
}

/// The flag argument, if any, as a sequence of zero or one argument.
pub open spec fn flag_args(flag: Option<Seq<char>>) -> Seq<Seq<char>> {
    match flag {
        Some(f) => seq![f],
        None => Seq::empty(),
    }
}

/// Builds `program verb [flag] packages...`.
pub fn invocation(program: &str, verb: &str, flag: Option<&str>, packages: &[String]) -> (r:
    Invocation)
    ensures
        r@.program == program@,
        r@.args == seq![verb@] + flag_args(
            match flag {
                Some(f) => Some(f@),
                None => None,
            },
        ) + texts(packages@),
{
    let mut args: Vec<String> = Vec::new();
    args.push(String::from_str(verb));
    if let Some(f) = flag {
        args.push(String::from_str(f));
    }
    let ghost head = texts(args@);
    assert(head == seq![verb@] + flag_args(
        match flag {
            Some(f) => Some(f@),
            None => None,
        },
    ));
    let n = packages.len();
    for i in 0..n
        invariant
            n == packages@.len(),
            texts(args@) == head + texts(packages@.take(i as int)),
    {
        let ghost before = args@;
        args.push(packages[i].clone());
        let ghost item = packages@[i as int];
        assert(texts(args@) =~= texts(before).push(item@));
        assert(texts(packages@.take(i + 1)) =~= texts(packages@.take(i as int)).push(item@));
        assert(texts(args@) =~= head + texts(packages@.take(i + 1)));
    }
    assert(packages@.take(n as int) =~= packages@);
    Invocation { program: String::from_str(program), args }
}

} // verus!
