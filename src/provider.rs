use vstd::prelude::*;

verus! {

/// The permissions a fetch is checked against.
#[derive(Clone, Copy, Debug, PartialEq, Eq, Structural)]
pub enum Grant {
    /// Everything allowed, as for a program's own main module.
    AllowAll,
    /// The runtime's permission set, as for a dynamic import.
    Runtime,
}

/// Where module sources come from for one request: chosen once, and closed.
pub enum SourceProvider {
    /// Only the caller's own sources; nothing else is ever fetched.
    Memory { sources: Vec<(String, String)> },
    /// Fetching from the network or disk, the root checked against
    /// `root_grant` and dynamic imports against `dynamic_grant`.
    Fetch { root_grant: Grant, dynamic_grant: Grant },
}

/// What the provider does when the graph builder asks for a module.
#[derive(Debug, PartialEq, Eq)]
pub enum SourceRequest {
    /// The caller's own text for the specifier.
    Found(String),
    /// The caller's sources do not hold the specifier: a resolution failure.
    Missing,
    /// Fetch the specifier, checked against the grant.
    Fetch { specifier: String, grant: Grant },
}

/// The text of the first entry under `specifier`, if any.
pub open spec fn lookup(sources: Seq<(String, String)>, specifier: Seq<char>) -> Option<String>
    decreases sources.len(),
{
    if sources.len() == 0 {
        None
    } else if sources[0].0@ == specifier {
        Some(sources[0].1)
    } else {
        lookup(sources.drop_first(), specifier)
    }
}

/// The provider for a request: the caller's sources where there are any;
/// else fetching, with the root held to the runtime's permissions just as a
/// dynamic import is.
pub open spec fn provider_for(sources: Option<Vec<(String, String)>>) -> SourceProvider {
    match sources {
        Some(s) => SourceProvider::Memory { sources: s },
        None => SourceProvider::Fetch { root_grant: Grant::Runtime, dynamic_grant: Grant::Runtime },
    }
}

pub fn select_provider(sources: Option<Vec<(String, String)>>) -> (r: SourceProvider)
    ensures
        r == provider_for(sources),
{
    match sources {
        Some(s) => SourceProvider::Memory { sources: s },
        None => SourceProvider::Fetch { root_grant: Grant::Runtime, dynamic_grant: Grant::Runtime },
    }
}

/// What the provider answers for `specifier`, reached by a dynamic import or not.
pub open spec fn request_of(p: SourceProvider, specifier: String, is_dynamic: bool) -> SourceRequest {
    match p {
        SourceProvider::Memory { sources } => match lookup(sources@, specifier@) {
            Some(text) => SourceRequest::Found(text),
            None => SourceRequest::Missing,
        },
        SourceProvider::Fetch { root_grant, dynamic_grant } => SourceRequest::Fetch {
            specifier,
            grant: if is_dynamic { dynamic_grant } else { root_grant },
        },
    }
}

impl SourceProvider {
    pub fn request_source(&self, specifier: &String, is_dynamic: bool) -> (r: SourceRequest)
        ensures
            r == request_of(*self, *specifier, is_dynamic),
    {
        match self {
            SourceProvider::Memory { sources } => {
                let mut i: usize = 0;
                assert(sources@.subrange(0, sources@.len() as int) =~= sources@);
                while i < sources.len()
                    invariant
                        *self == (SourceProvider::Memory { sources: *sources }),
                        0 <= i <= sources@.len(),
                        lookup(sources@, specifier@) == lookup(sources@.subrange(i as int, sources@.len() as int), specifier@),
                    decreases sources@.len() - i,
                {
                    let ghost rest = sources@.subrange(i as int, sources@.len() as int);
                    assert(rest.drop_first() =~= sources@.subrange(i + 1, sources@.len() as int));
                    assert(rest[0] == sources@[i as int]);
                    let entry = &sources[i];
                    if entry.0 == *specifier {
                        let text = entry.1.clone();
                        assert(lookup(rest, specifier@) == Some(text));
                        return SourceRequest::Found(text);
                    }
                    i = i + 1;
                }
                assert(sources@.subrange(i as int, sources@.len() as int) =~= Seq::<(String, String)>::empty());
                SourceRequest::Missing
            },
            SourceProvider::Fetch { root_grant, dynamic_grant } => SourceRequest::Fetch {
                specifier: specifier.clone(),
                grant: if is_dynamic { *dynamic_grant } else { *root_grant },
            },
        }
    }
}

} // verus!
