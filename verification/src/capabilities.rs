use crate::error::{ApiError, ErrorKind};
use crate::text::{decimal, decimal_text, texts_of};
use thirtyfour::error::WebDriverError;
use thirtyfour::{ChromeCapabilities, ChromiumLikeCapabilities, DesiredCapabilities};
use vstd::prelude::*;

verus! {

/// thirtyfour's capability set for Chrome. What is inside is not seen here.
#[verifier::external_type_specification]
#[verifier::external_body]
pub struct ExChromeCapabilities(ChromeCapabilities);

/// thirtyfour's error. What is inside is not seen here.
#[verifier::external_type_specification]
#[verifier::external_body]
pub struct ExWebDriverError(WebDriverError);

/// The command-line arguments that a capability set holds for the browser, in the order in
/// which its `args` method lists them.
pub uninterp spec fn chrome_arguments(capabilities: ChromeCapabilities) -> Seq<Seq<char>>;

/// A list of arguments after `argument` was added to it: at the end, unless the list holds
/// it already.
pub open spec fn with_argument(list: Seq<Seq<char>>, argument: Seq<char>) -> Seq<Seq<char>> {
    if list.contains(argument) {
        list
    } else {
        list.push(argument)
    }
}

/// A list of arguments after each of `arguments` was added to the empty list in turn: the
/// first occurrence of each, in order.
pub open spec fn without_repeats(arguments: Seq<Seq<char>>) -> Seq<Seq<char>>
    decreases arguments.len(),
{
    if arguments.len() == 0 {
        Seq::empty()
    } else {
        with_argument(without_repeats(arguments.drop_last()), arguments.last())
    }
}

/// `DesiredCapabilities::chrome` of thirtyfour: a capability set for Chrome that holds no
/// command-line argument yet.
#[verifier::external_body]
fn new_chrome_capabilities() -> (capabilities: ChromeCapabilities)
    ensures
        chrome_arguments(capabilities) == Seq::<Seq<char>>::empty(),
{
    DesiredCapabilities::chrome()
}

/// `ChromiumLikeCapabilities::add_arg` of thirtyfour: it succeeds, and the argument then
/// stands at the end of the set's list unless the list held it before. It can fail only
/// where a list of texts or a JSON value cannot be turned into a JSON value, and serde_json
/// turns every one of those.
#[verifier::external_body]
fn add_chrome_argument(capabilities: &mut ChromeCapabilities, argument: &str) -> (result: Result<
    (),
    WebDriverError,
>)
    ensures
        result is Ok,
        chrome_arguments(*final(capabilities)) == with_argument(
            chrome_arguments(*old(capabilities)),
            argument@,
        ),
{
    capabilities.add_arg(argument)
}

/// The `Display` text of thirtyfour's `WebDriverError`; nothing is claimed of it.
#[verifier::external_body]
fn webdriver_error_text(error: &WebDriverError) -> (text: String) {
    error.to_string()
}

/// The failure that stands for an error of the browser driver's library.
pub fn webdriver_failure(error: &WebDriverError) -> (failure: ApiError)
    ensures
        failure@.kind == ErrorKind::WebDriverError,
{
    ApiError::WebDriverError(webdriver_error_text(error))
}

/// A Chrome capability set that holds the given arguments, each once, in the order of
/// their first occurrence. The driver's library refuses none, so this never fails.
pub fn chrome_capabilities(arguments: &Vec<String>) -> (result: Result<
    ChromeCapabilities,
    ApiError,
>)
    ensures
        result matches Ok(capabilities) && chrome_arguments(capabilities) == without_repeats(
            texts_of(arguments@),
        ),
{
    let mut capabilities = new_chrome_capabilities();
    let mut i: usize = 0;
    while i < arguments.len()
        invariant
            i <= arguments.len(),
            chrome_arguments(capabilities) == without_repeats(texts_of(arguments@).take(i as int)),
        decreases arguments.len() - i,
    {
        match add_chrome_argument(&mut capabilities, arguments[i].as_str()) {
            Ok(()) => {},
            Err(e) => {
                return Err(webdriver_failure(&e));
            },
        }
        proof {
            let all = texts_of(arguments@);
            assert(all.take(i + 1).drop_last() =~= all.take(i as int));
            assert(all.take(i + 1).last() == arguments[i as int]@);
        }
        i = i + 1;
    }
    proof {
        assert(texts_of(arguments@).take(i as int) =~= texts_of(arguments@));
    }
    Ok(capabilities)
}

/// A list in which nothing occurs twice loses nothing when its repeats are dropped.
pub proof fn lemma_distinct_arguments_are_kept(arguments: Seq<Seq<char>>)
    requires
        arguments.no_duplicates(),
    ensures
        without_repeats(arguments) == arguments,
    decreases arguments.len(),
{
    if arguments.len() > 0 {
        let front = arguments.drop_last();
        lemma_distinct_arguments_are_kept(front);
        if front.contains(arguments.last()) {
            let j = choose|j: int| 0 <= j < front.len() && front[j] == arguments.last();
            assert(arguments[j] == arguments[arguments.len() - 1]);
        }
        assert(front.push(arguments.last()) =~= arguments);
    } else {
        assert(arguments =~= Seq::empty());
    }
}

/// The argument that sets the browser window to `width` by `height` pixels.
pub open spec fn window_size_argument(width: u32, height: u32) -> Seq<char> {
    "--window-size="@ + decimal(width as nat) + ","@ + decimal(height as nat)
}

/// The argument that sets the browser window to `width` by `height` pixels.
pub fn window_size_text(width: u32, height: u32) -> (text: String)
    ensures
        text@ == window_size_argument(width, height),
{
    let mut text = String::from_str("--window-size=");
    let w = decimal_text(width);
    let h = decimal_text(height);
    text.append(w.as_str());
    text.append(",");
    text.append(h.as_str());
    text
}

/// The arguments with which the browser is started for one image: without a window, without
/// a sandbox, with what a single still image does not need switched off, and with a window
/// of the given size.
pub open spec fn capture_arguments(width: u32, height: u32) -> Seq<Seq<char>> {
    seq![
        "--headless"@,
        "--no-sandbox"@,
        "--disable-dev-shm-usage"@,
        "--disable-gpu"@,
        "--disable-extensions"@,
        "--disable-plugins"@,
        "--disable-images"@,
        "--disable-javascript"@,
        "--disable-web-security"@,
        "--disable-features=VizDisplayCompositor"@,
        "--disable-background-timer-throttling"@,
        "--disable-renderer-backgrounding"@,
        "--disable-backgrounding-occluded-windows"@,
        window_size_argument(width, height),
    ]
}

/// The arguments with which the browser is started for a recording: without a window,
/// without a sandbox, and with a window of the given size.
pub open spec fn recording_arguments(width: u32, height: u32) -> Seq<Seq<char>> {
    seq![
        "--headless"@,
        "--no-sandbox"@,
        "--disable-dev-shm-usage"@,
        window_size_argument(width, height),
    ]
}

/// The arguments with which the browser is started for one image.
pub fn capture_argument_list(width: u32, height: u32) -> (list: Vec<String>)
    ensures
        texts_of(list@) == capture_arguments(width, height),
{
    let mut list: Vec<String> = Vec::new();
    list.push(String::from_str("--headless"));
    list.push(String::from_str("--no-sandbox"));
    list.push(String::from_str("--disable-dev-shm-usage"));
    list.push(String::from_str("--disable-gpu"));
    list.push(String::from_str("--disable-extensions"));
    list.push(String::from_str("--disable-plugins"));
    list.push(String::from_str("--disable-images"));
    list.push(String::from_str("--disable-javascript"));
    list.push(String::from_str("--disable-web-security"));
    list.push(String::from_str("--disable-features=VizDisplayCompositor"));
    list.push(String::from_str("--disable-background-timer-throttling"));
    list.push(String::from_str("--disable-renderer-backgrounding"));
    list.push(String::from_str("--disable-backgrounding-occluded-windows"));
    list.push(window_size_text(width, height));
    assert(texts_of(list@) =~= capture_arguments(width, height));
    list
}

/// The arguments with which the browser is started for a recording.
pub fn recording_argument_list(width: u32, height: u32) -> (list: Vec<String>)
    ensures
        texts_of(list@) == recording_arguments(width, height),
{
    let mut list: Vec<String> = Vec::new();
    list.push(String::from_str("--headless"));
    list.push(String::from_str("--no-sandbox"));
    list.push(String::from_str("--disable-dev-shm-usage"));
    list.push(window_size_text(width, height));
    assert(texts_of(list@) =~= recording_arguments(width, height));
    list
}

/// No argument occurs twice among those for one image, nor among those for a recording.
pub proof fn lemma_arguments_are_distinct(width: u32, height: u32)
    ensures
        capture_arguments(width, height).no_duplicates(),
        recording_arguments(width, height).no_duplicates(),
{
    reveal_strlit("--headless");
    reveal_strlit("--no-sandbox");
    reveal_strlit("--disable-dev-shm-usage");
    reveal_strlit("--disable-gpu");
    reveal_strlit("--disable-extensions");
    reveal_strlit("--disable-plugins");
    reveal_strlit("--disable-images");
    reveal_strlit("--disable-javascript");
    reveal_strlit("--disable-web-security");
    reveal_strlit("--disable-features=VizDisplayCompositor");
    reveal_strlit("--disable-background-timer-throttling");
    reveal_strlit("--disable-renderer-backgrounding");
    reveal_strlit("--disable-backgrounding-occluded-windows");
    reveal_strlit("--window-size=");
    let size = window_size_argument(width, height);
    assert(size.len() > 14);
    assert(size[2] == 'w');
    let all = capture_arguments(width, height);
    assert forall|i: int, j: int| 0 <= i < j < all.len() implies all[i] != all[j] by {
        assert(all[i].len() != all[j].len() || all[i][2] != all[j][2] || all[i][10] != all[j][10]);
    }
    let few = recording_arguments(width, height);
    assert forall|i: int, j: int| 0 <= i < j < few.len() implies few[i] != few[j] by {
        assert(few[i].len() != few[j].len() || few[i][2] != few[j][2]);
    }
}

/// The capability set with which a session for one image is opened. This never fails.
pub fn capture_capabilities(width: u32, height: u32) -> (result: Result<
    ChromeCapabilities,
    ApiError,
>)
    ensures
        result matches Ok(capabilities) && chrome_arguments(capabilities) == capture_arguments(
            width,
            height,
        ),
{
    let list = capture_argument_list(width, height);
    proof {
        lemma_arguments_are_distinct(width, height);
        lemma_distinct_arguments_are_kept(capture_arguments(width, height));
    }
    chrome_capabilities(&list)
}

/// The capability set with which a session for a recording is opened. This never fails.
pub fn recording_capabilities(width: u32, height: u32) -> (result: Result<
    ChromeCapabilities,
    ApiError,
>)
    ensures
        result matches Ok(capabilities) && chrome_arguments(capabilities) == recording_arguments(
            width,
            height,
        ),
{
    let list = recording_argument_list(width, height);
    proof {
        lemma_arguments_are_distinct(width, height);
        lemma_distinct_arguments_are_kept(recording_arguments(width, height));
    }
    chrome_capabilities(&list)
}

} // verus!
