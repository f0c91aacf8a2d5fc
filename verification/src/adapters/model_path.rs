//! Where the ONNX model files are looked up.

use vstd::prelude::*;

verus! {

/// Installed location of the face embedding model.
pub open spec fn embedder_system_path() -> Seq<char> {
    "/var/lib/trueid/models/face_embedding.onnx"@
}

/// `a` joined with the relative path `b`, as `PathBuf::join` does: a `/` goes between them
/// unless `a` is empty or already ends with one.
pub open spec fn spec_path_join(a: Seq<char>, b: Seq<char>) -> Seq<char> {
    if a.len() == 0 || a.last() == '/' {
        a + b
    } else {
        a + seq!['/'] + b
    }
}

/// Joins a base directory and a relative path.
pub fn path_join(a: &str, b: &str) -> (r: String)
    ensures
        r@ == spec_path_join(a@, b@),
{
    let n = a.unicode_len();
    if n == 0 || a.get_char(n - 1) == '/' {
        String::from_str(a).concat(b)
    } else {
        proof {
            reveal_strlit("/");
        }
        let r = String::from_str(a).concat("/").concat(b);
        assert(r@ =~= a@ + seq!['/'] + b@);
        r
    }
}

/// The model file to load: an explicit override wins, then the installed system path when
/// it exists, then `relative` under `$XDG_DATA_HOME`, else under `$HOME/.local/share`;
/// `None` when neither variable is set.
pub open spec fn spec_model_path(
    env_override: Option<Seq<char>>,
    system_path: Seq<char>,
    system_exists: bool,
    xdg_data_home: Option<Seq<char>>,
    home: Option<Seq<char>>,
    relative: Seq<char>,
) -> Option<Seq<char>> {
    if env_override is Some {
        env_override
    } else if system_exists {
        Some(system_path)
    } else {
        match xdg_data_home {
            Some(x) => Some(spec_path_join(x, relative)),
            None => match home {
                Some(h) => Some(spec_path_join(spec_path_join(h, ".local/share"@), relative)),
                None => None,
            },
        }
    }
}

/// Resolves a model file from what the environment and the file system report.
pub fn resolve_model_path(
    env_override: Option<String>,
    system_path: &str,
    system_exists: bool,
    xdg_data_home: Option<String>,
    home: Option<String>,
    relative: &str,
) -> (r: Option<String>)
    ensures
        r matches Some(p) ==> spec_model_path(
            env_override.deep_view(),
            system_path@,
            system_exists,
            xdg_data_home.deep_view(),
            home.deep_view(),
            relative@,
        ) == Some(p@),
        r is None ==> spec_model_path(
            env_override.deep_view(),
            system_path@,
            system_exists,
            xdg_data_home.deep_view(),
            home.deep_view(),
            relative@,
        ) is None,
{
    if let Some(p) = env_override {
        return Some(p);
    }
    if system_exists {
        return Some(String::from_str(system_path));
    }
    if let Some(x) = xdg_data_home {
        return Some(path_join(x.as_str(), relative));
    }
    if let Some(h) = home {
        let base = path_join(h.as_str(), ".local/share");
        return Some(path_join(base.as_str(), relative));
    }
    None
}

/// The lookup order of model files: an explicit override always wins; without one, an
/// installed system model is used whatever the per-user directories are; only when it is
/// missing does `$XDG_DATA_HOME`, else `$HOME/.local/share`, supply the location (a `/`
/// between directory and relative path), and with neither set there is none.
pub proof fn lemma_model_path_order(
    env_override: Option<Seq<char>>,
    system_path: Seq<char>,
    system_exists: bool,
    xdg_data_home: Option<Seq<char>>,
    home: Option<Seq<char>>,
    relative: Seq<char>,
)
    ensures
        env_override matches Some(o) ==> spec_model_path(
            env_override,
            system_path,
            system_exists,
            xdg_data_home,
            home,
            relative,
        ) == Some(o),
        env_override is None && system_exists ==> spec_model_path(
            env_override,
            system_path,
            system_exists,
            xdg_data_home,
            home,
            relative,
        ) == Some(system_path),
        env_override is None && !system_exists ==> (xdg_data_home matches Some(x) ==> spec_model_path(
            env_override,
            system_path,
            system_exists,
            xdg_data_home,
            home,
            relative,
        ) == Some(if x.len() > 0 && x.last() == '/' { x + relative } else if x.len() == 0 {
            relative
        } else {
            x + seq!['/'] + relative
        })),
        env_override is None && !system_exists && xdg_data_home is None ==> (home matches Some(h)
            ==> (h.len() > 0 && h.last() != '/' ==> spec_model_path(
            env_override,
            system_path,
            system_exists,
            xdg_data_home,
            home,
            relative,
        ) == Some(h + "/.local/share/"@ + relative))),
        env_override is None && !system_exists && xdg_data_home is None ==> (home is None
            <==> spec_model_path(
            env_override,
            system_path,
            system_exists,
            xdg_data_home,
            home,
            relative,
        ) is None),
{
    reveal_strlit(".local/share");
    reveal_strlit("/.local/share/");
    if let Some(h) = home {
        if h.len() > 0 && h.last() != '/' {
            let base = h + seq!['/'] + ".local/share"@;
            assert(base.last() == 'e');
            assert(base + seq!['/'] + relative =~= h + "/.local/share/"@ + relative);
        }
    }
}

} // verus!
