use vstd::prelude::*;

use crate::text::{from_chars, same_chars, to_chars};

verus! {

/// A supported conversion direction of the engine.
#[derive(Clone, Copy, Debug, PartialEq, Eq, Structural)]
pub enum ConversionConfig {
    S2t,
    T2s,
    S2tw,
    Tw2s,
    S2twp,
    Tw2sp,
    Tw2t,
    T2tw,
    S2hk,
    Hk2s,
    Hk2t,
    T2hk,
    T2jp,
    Jp2t,
}

/// The name under which the engine knows a direction.
pub open spec fn name_of(c: ConversionConfig) -> Seq<char> {
    match c {
        ConversionConfig::S2t => seq!['s', '2', 't'],
        ConversionConfig::T2s => seq!['t', '2', 's'],
        ConversionConfig::S2tw => seq!['s', '2', 't', 'w'],
        ConversionConfig::Tw2s => seq!['t', 'w', '2', 's'],
        ConversionConfig::S2twp => seq!['s', '2', 't', 'w', 'p'],
        ConversionConfig::Tw2sp => seq!['t', 'w', '2', 's', 'p'],
        ConversionConfig::Tw2t => seq!['t', 'w', '2', 't'],
        ConversionConfig::T2tw => seq!['t', '2', 't', 'w'],
        ConversionConfig::S2hk => seq!['s', '2', 'h', 'k'],
        ConversionConfig::Hk2s => seq!['h', 'k', '2', 's'],
        ConversionConfig::Hk2t => seq!['h', 'k', '2', 't'],
        ConversionConfig::T2hk => seq!['t', '2', 'h', 'k'],
        ConversionConfig::T2jp => seq!['t', '2', 'j', 'p'],
        ConversionConfig::Jp2t => seq!['j', 'p', '2', 't'],
    }
}

/// Whether `name` is the name of a supported direction.
pub open spec fn is_supported(name: Seq<char>) -> bool {
    exists|c: ConversionConfig| name_of(c) == name
}

/// The direction used for a name: the one it names, or simplified to
/// traditional when it names none.
pub open spec fn resolved(name: Seq<char>) -> ConversionConfig {
    if is_supported(name) {
        choose|c: ConversionConfig| name_of(c) == name
    } else {
        ConversionConfig::S2t
    }
}

/// Where the engine finds the configuration of `c` under `base`:
/// `<base>/<name>.json`.
pub open spec fn config_path(base: Seq<char>, c: ConversionConfig) -> Seq<char> {
    base + seq!['/'] + name_of(c) + seq!['.', 'j', 's', 'o', 'n']
}

/// No two directions share a name.
pub proof fn lemma_names_distinct(a: ConversionConfig, b: ConversionConfig)
    ensures
        name_of(a) == name_of(b) ==> a == b,
{
    if name_of(a) == name_of(b) && a != b {
        let na = name_of(a);
        let nb = name_of(b);
        assert(na.len() == nb.len());
        assert(na[0] == nb[0]);
        assert(na[1] == nb[1]);
        assert(na[2] == nb[2]);
        if na.len() > 3 {
            assert(na[3] == nb[3]);
        }
        if na.len() > 4 {
            assert(na[4] == nb[4]);
        }
    }
}

/// A supported name resolves to the direction it names; any other name
/// resolves to the default direction.
pub proof fn lemma_resolved(name: Seq<char>)
    ensures
        is_supported(name) ==> name_of(resolved(name)) == name,
        !is_supported(name) ==> resolved(name) == ConversionConfig::S2t,
{
}

impl ConversionConfig {
    /// The characters of this direction's name.
    pub fn name_chars(&self) -> (r: Vec<char>)
        ensures
            r@ == name_of(*self),
    {
        let r = match self {
            ConversionConfig::S2t => vec!['s', '2', 't'],
            ConversionConfig::T2s => vec!['t', '2', 's'],
            ConversionConfig::S2tw => vec!['s', '2', 't', 'w'],
            ConversionConfig::Tw2s => vec!['t', 'w', '2', 's'],
            ConversionConfig::S2twp => vec!['s', '2', 't', 'w', 'p'],
            ConversionConfig::Tw2sp => vec!['t', 'w', '2', 's', 'p'],
            ConversionConfig::Tw2t => vec!['t', 'w', '2', 't'],
            ConversionConfig::T2tw => vec!['t', '2', 't', 'w'],
            ConversionConfig::S2hk => vec!['s', '2', 'h', 'k'],
            ConversionConfig::Hk2s => vec!['h', 'k', '2', 's'],
            ConversionConfig::Hk2t => vec!['h', 'k', '2', 't'],
            ConversionConfig::T2hk => vec!['t', '2', 'h', 'k'],
            ConversionConfig::T2jp => vec!['t', '2', 'j', 'p'],
            ConversionConfig::Jp2t => vec!['j', 'p', '2', 't'],
        };
        proof {
            assert(r@ =~= name_of(*self));
        }
        r
    }

    /// This direction's name.
    pub fn name(&self) -> (r: String)
        ensures
            r@ == name_of(*self),
    {
        from_chars(&self.name_chars())
    }
}

/// The direction that a configuration name selects. Never fails: a name
/// outside the supported set selects simplified to traditional.
pub fn resolve_config(name: &str) -> (r: ConversionConfig)
    ensures
        r == resolved(name@),
{
    let cs = to_chars(name);
    let all = [
        ConversionConfig::S2t,
        ConversionConfig::T2s,
        ConversionConfig::S2tw,
        ConversionConfig::Tw2s,
        ConversionConfig::S2twp,
        ConversionConfig::Tw2sp,
        ConversionConfig::Tw2t,
        ConversionConfig::T2tw,
        ConversionConfig::S2hk,
        ConversionConfig::Hk2s,
        ConversionConfig::Hk2t,
        ConversionConfig::T2hk,
        ConversionConfig::T2jp,
        ConversionConfig::Jp2t,
    ];
    let mut i: usize = 0;
    while i < all.len()
        invariant
            cs@ == name@,
            forall|j: int| 0 <= j < i ==> name_of(#[trigger] all@[j]) != name@,
        decreases all.len() - i,
    {
        let c = all[i];
        if same_chars(&c.name_chars(), &cs) {
            proof {
                assert(is_supported(name@));
                let d = resolved(name@);
                lemma_names_distinct(c, d);
            }
            return c;
        }
        i += 1;
    }
    proof {
        assert forall|c: ConversionConfig| name_of(c) != name@ by {
            match c {
                ConversionConfig::S2t => assert(all@[0] == c),
                ConversionConfig::T2s => assert(all@[1] == c),
                ConversionConfig::S2tw => assert(all@[2] == c),
                ConversionConfig::Tw2s => assert(all@[3] == c),
                ConversionConfig::S2twp => assert(all@[4] == c),
                ConversionConfig::Tw2sp => assert(all@[5] == c),
                ConversionConfig::Tw2t => assert(all@[6] == c),
                ConversionConfig::T2tw => assert(all@[7] == c),
                ConversionConfig::S2hk => assert(all@[8] == c),
                ConversionConfig::Hk2s => assert(all@[9] == c),
                ConversionConfig::Hk2t => assert(all@[10] == c),
                ConversionConfig::T2hk => assert(all@[11] == c),
                ConversionConfig::T2jp => assert(all@[12] == c),
                ConversionConfig::Jp2t => assert(all@[13] == c),
            }
        }
    }
    ConversionConfig::S2t
}

/// The configuration resource path for `c` under the directory `base`.
pub fn config_file_path(base: &str, c: ConversionConfig) -> (r: String)
    ensures
        r@ == config_path(base@, c),
{
    let mut out = to_chars(base);
    out.push('/');
    let mut name = c.name_chars();
    out.append(&mut name);
    out.push('.');
    out.push('j');
    out.push('s');
    out.push('o');
    out.push('n');
    proof {
        assert(out@ =~= config_path(base@, c));
    }
    from_chars(&out)
}

/// An unsupported name selects exactly what the default name `s2t` selects,
/// so a conversion under it opens the same configuration resource.
pub proof fn lemma_unsupported_name_is_default(name: Seq<char>, base: Seq<char>)
    requires
        !is_supported(name),
    ensures
        resolved(name) == resolved(seq!['s', '2', 't']),
        config_path(base, resolved(name)) == config_path(base, resolved(seq!['s', '2', 't'])),
{
    let d = seq!['s', '2', 't'];
    assert(name_of(ConversionConfig::S2t) == d);
    assert(is_supported(d));
    lemma_names_distinct(ConversionConfig::S2t, resolved(d));
}

} // verus!
