//! The browser client, served as a single HTML page.

use vstd::prelude::*;

verus! {

/// Whether `text` occurs in `page` starting at position `at`.
pub open spec fn occurs_at(page: Seq<char>, text: Seq<char>, at: int) -> bool {
    0 <= at && at + text.len() <= page.len() && page.subrange(at, at + text.len()) == text
}

/// Whether `text` occurs somewhere in `page`.
pub open spec fn occurs_in(page: Seq<char>, text: Seq<char>) -> bool {
    exists|at: int| occurs_at(page, text, at)
}

/// The single-page browser client: join screen, share URL with copy button,
/// theme selector, topic, voting deck, participant list and round summary.
/// The page is an HTML document holding the elements that the client script
/// drives and the websocket join URL; it holds no backslash, so no escaped
/// quote can break the rendered markup.
pub fn index_html() -> (html: &'static str)
    ensures
        occurs_at(html@, "<!DOCTYPE html>"@, 0),
        occurs_in(html@, "id=\"shareUrl\""@),
        occurs_in(html@, "id=\"joinBtn\""@),
        occurs_in(html@, "id=\"nameInput\""@),
        occurs_in(html@, "id=\"appPanel\""@),
        occurs_in(html@, "id=\"themeSelect\""@),
        occurs_in(html@, "id=\"copyShareBtn\""@),
        occurs_in(html@, "id=\"summaryStatus\""@),
        occurs_in(html@, "/ws?name=${encodeURIComponent(name)}"@),
        forall|i: int| 0 <= i < html@.len() ==> html@[i] != '\\',
{
    let html = r##"<!DOCTYPE html>
<html lang="en">
<head>
<meta charset="utf-8">
<meta name="viewport" content="width=device-width, initial-scale=1">
<title>StoryVote</title>
<style>
:root { --bg: #f6f7f9; --fg: #1d2330; --card: #ffffff; --muted: #6b7280; --accent: #2563eb; --border: #d6dae1; }
:root[data-theme='dark'] { --bg: #14171d; --fg: #e6e9ef; --card: #1e232c; --muted: #9aa3b2; --accent: #60a5fa; --border: #333a46; }
@media (prefers-color-scheme: dark) {
  :root[data-theme='system'] { --bg: #14171d; --fg: #e6e9ef; --card: #1e232c; --muted: #9aa3b2; --accent: #60a5fa; --border: #333a46; }
}
* { box-sizing: border-box; }
body { margin: 0; font-family: system-ui, sans-serif; background: var(--bg); color: var(--fg); }
header { display: flex; flex-wrap: wrap; gap: 8px; align-items: center; justify-content: space-between; padding: 12px 16px; border-bottom: 1px solid var(--border); }
main { max-width: 860px; margin: 0 auto; padding: 16px; }
.panel { background: var(--card); border: 1px solid var(--border); border-radius: 10px; padding: 16px; margin-bottom: 16px; }
.hidden { display: none; }
button { font: inherit; padding: 8px 14px; border-radius: 8px; border: 1px solid var(--border); background: var(--card); color: var(--fg); cursor: pointer; }
button.primary { background: var(--accent); border-color: var(--accent); color: #ffffff; }
button:disabled { opacity: 0.5; cursor: default; }
input, select { font: inherit; padding: 8px; border-radius: 8px; border: 1px solid var(--border); background: var(--bg); color: var(--fg); }
.deck { display: flex; flex-wrap: wrap; gap: 8px; }
.deck button { min-width: 56px; font-size: 1.2em; }
.deck button.selected { background: var(--accent); color: #ffffff; border-color: var(--accent); }
ul.people { list-style: none; padding: 0; margin: 0; }
ul.people li { display: flex; justify-content: space-between; padding: 6px 0; border-bottom: 1px solid var(--border); }
.muted { color: var(--muted); }
.error { color: #dc2626; min-height: 1.2em; }
.row { display: flex; flex-wrap: wrap; gap: 8px; align-items: center; }
</style>
</head>
<body>
<header>
  <strong>StoryVote</strong>
  <div class="row">
    <span class="muted">Share:</span>
    <code id="shareUrl"></code>
    <button id="copyShareBtn" type="button">Copy</button>
    <label class="muted" for="themeSelect">Theme</label>
    <select id="themeSelect">
      <option value="system">System</option>
      <option value="light">Light</option>
      <option value="dark">Dark</option>
    </select>
  </div>
</header>
<main>
  <section id="joinPanel" class="panel">
    <h2>Join the session</h2>
    <div class="row">
      <input id="nameInput" type="text" maxlength="32" placeholder="Your name" autocomplete="name">
      <button id="joinBtn" class="primary" type="button">Join</button>
    </div>
    <p id="joinError" class="error"></p>
  </section>
  <section id="appPanel" class="panel hidden">
    <div class="row">
      <input id="topicInput" type="text" maxlength="120" placeholder="Topic">
      <button id="topicBtn" type="button">Set topic</button>
      <span id="topicText" class="muted"></span>
    </div>
    <h3>Your vote</h3>
    <div id="deck" class="deck"></div>
    <div class="row" style="margin-top: 12px">
      <button id="revealBtn" class="primary" type="button">Reveal</button>
      <button id="resetBtn" type="button">Reset round</button>
      <span id="hostNote" class="muted"></span>
    </div>
    <h3>Participants</h3>
    <ul id="people" class="people"></ul>
    <p id="summaryStatus" class="muted"></p>
    <p id="appError" class="error"></p>
  </section>
</main>
<script>
const CARDS = ['0', '1', '2', '3', '5', '8', '13', '21', '34', '55', '?'];
const byId = (id) => document.getElementById(id);
let socket = null;
let myName = '';
let isHost = false;
let myVote = null;

function applyTheme(value) {
  document.documentElement.setAttribute('data-theme', value);
  localStorage.setItem('storyvote-theme', value);
}
const savedTheme = localStorage.getItem('storyvote-theme') || 'system';
byId('themeSelect').value = savedTheme;
applyTheme(savedTheme);
byId('themeSelect').addEventListener('change', (e) => applyTheme(e.target.value));

byId('shareUrl').textContent = window.location.origin;
byId('copyShareBtn').addEventListener('click', () => {
  const url = byId('shareUrl').textContent;
  if (navigator.clipboard) { navigator.clipboard.writeText(url); }
});

byId('nameInput').value = localStorage.getItem('storyvote-name') || '';

function send(event) {
  if (socket && socket.readyState === WebSocket.OPEN) { socket.send(JSON.stringify(event)); }
}

function renderDeck() {
  const deck = byId('deck');
  deck.innerHTML = '';
  for (const card of CARDS) {
    const b = document.createElement('button');
    b.type = 'button';
    b.textContent = card;
    if (card === myVote) { b.className = 'selected'; }
    b.addEventListener('click', () => { myVote = card; renderDeck(); send({ type: 'vote', value: card }); });
    deck.appendChild(b);
  }
}

function summarize(votes) {
  const numbers = Object.values(votes).map(Number).filter((n) => Number.isFinite(n)).sort((a, b) => a - b);
  if (numbers.length === 0) { return 'No numeric votes.'; }
  const average = numbers.reduce((a, b) => a + b, 0) / numbers.length;
  const mid = Math.floor(numbers.length / 2);
  const median = numbers.length % 2 ? numbers[mid] : (numbers[mid - 1] + numbers[mid]) / 2;
  return 'Average: ' + average.toFixed(1) + ' | Median: ' + median;
}

function renderState(state) {
  const people = byId('people');
  people.innerHTML = '';
  for (const p of state.participants) {
    const li = document.createElement('li');
    const left = document.createElement('span');
    left.textContent = p.name + (p.isHost ? ' (host)' : '');
    const right = document.createElement('span');
    if (state.revealed) {
      right.textContent = state.votes[p.name] || '-';
    } else {
      right.textContent = p.voted ? 'Voted' : '';
    }
    li.appendChild(left);
    li.appendChild(right);
    people.appendChild(li);
    if (p.name === myName) { isHost = p.isHost; }
  }
  if (!state.revealed && !state.participants.some((p) => p.name === myName && p.voted)) { myVote = null; }
  byId('topicText').textContent = state.topic ? 'Topic: ' + state.topic : '';
  byId('summaryStatus').textContent = state.revealed ? summarize(state.votes) : 'Votes are hidden until the host reveals them.';
  byId('revealBtn').disabled = !isHost;
  byId('resetBtn').disabled = !isHost;
  byId('topicBtn').disabled = !isHost;
  byId('hostNote').textContent = isHost ? 'You are the host.' : '';
  renderDeck();
}

function join() {
  const name = byId('nameInput').value.trim();
  if (!name) { byId('joinError').textContent = 'Please enter your name.'; return; }
  localStorage.setItem('storyvote-name', name);
  const scheme = window.location.protocol === 'https:' ? 'wss' : 'ws';
  socket = new WebSocket(`${scheme}://${window.location.host}/ws?name=${encodeURIComponent(name)}`);
  socket.addEventListener('message', (msg) => {
    const event = JSON.parse(msg.data);
    if (event.type === 'connected') {
      myName = event.name;
      isHost = event.is_host;
      byId('joinPanel').classList.add('hidden');
      byId('appPanel').classList.remove('hidden');
      byId('joinError').textContent = '';
    } else if (event.type === 'state') {
      byId('appError').textContent = '';
      renderState(event);
    } else if (event.type === 'error') {
      if (myName) { byId('appError').textContent = event.message; } else { byId('joinError').textContent = event.message; }
    }
  });
  socket.addEventListener('close', () => {
    if (myName) { byId('appError').textContent = 'Disconnected from the session.'; }
  });
}

byId('joinBtn').addEventListener('click', join);
byId('nameInput').addEventListener('keydown', (e) => { if (e.key === 'Enter') { join(); } });
byId('revealBtn').addEventListener('click', () => send({ type: 'reveal' }));
byId('resetBtn').addEventListener('click', () => { myVote = null; send({ type: 'reset' }); });
byId('topicBtn').addEventListener('click', () => send({ type: 'setTopic', value: byId('topicInput').value }));
renderDeck();
</script>
</body>
</html>
"##;
    // The proof names the page literal again so that Verus can read its
    // characters.
    proof {
        reveal_strlit(r##"<!DOCTYPE html>
<html lang="en">
<head>
<meta charset="utf-8">
<meta name="viewport" content="width=device-width, initial-scale=1">
<title>StoryVote</title>
<style>
:root { --bg: #f6f7f9; --fg: #1d2330; --card: #ffffff; --muted: #6b7280; --accent: #2563eb; --border: #d6dae1; }
:root[data-theme='dark'] { --bg: #14171d; --fg: #e6e9ef; --card: #1e232c; --muted: #9aa3b2; --accent: #60a5fa; --border: #333a46; }
@media (prefers-color-scheme: dark) {
  :root[data-theme='system'] { --bg: #14171d; --fg: #e6e9ef; --card: #1e232c; --muted: #9aa3b2; --accent: #60a5fa; --border: #333a46; }
}
* { box-sizing: border-box; }
body { margin: 0; font-family: system-ui, sans-serif; background: var(--bg); color: var(--fg); }
header { display: flex; flex-wrap: wrap; gap: 8px; align-items: center; justify-content: space-between; padding: 12px 16px; border-bottom: 1px solid var(--border); }
main { max-width: 860px; margin: 0 auto; padding: 16px; }
.panel { background: var(--card); border: 1px solid var(--border); border-radius: 10px; padding: 16px; margin-bottom: 16px; }
.hidden { display: none; }
button { font: inherit; padding: 8px 14px; border-radius: 8px; border: 1px solid var(--border); background: var(--card); color: var(--fg); cursor: pointer; }
button.primary { background: var(--accent); border-color: var(--accent); color: #ffffff; }
button:disabled { opacity: 0.5; cursor: default; }
input, select { font: inherit; padding: 8px; border-radius: 8px; border: 1px solid var(--border); background: var(--bg); color: var(--fg); }
.deck { display: flex; flex-wrap: wrap; gap: 8px; }
.deck button { min-width: 56px; font-size: 1.2em; }
.deck button.selected { background: var(--accent); color: #ffffff; border-color: var(--accent); }
ul.people { list-style: none; padding: 0; margin: 0; }
ul.people li { display: flex; justify-content: space-between; padding: 6px 0; border-bottom: 1px solid var(--border); }
.muted { color: var(--muted); }
.error { color: #dc2626; min-height: 1.2em; }
.row { display: flex; flex-wrap: wrap; gap: 8px; align-items: center; }
</style>
</head>
<body>
<header>
  <strong>StoryVote</strong>
  <div class="row">
    <span class="muted">Share:</span>
    <code id="shareUrl"></code>
    <button id="copyShareBtn" type="button">Copy</button>
    <label class="muted" for="themeSelect">Theme</label>
    <select id="themeSelect">
      <option value="system">System</option>
      <option value="light">Light</option>
      <option value="dark">Dark</option>
    </select>
  </div>
</header>
<main>
  <section id="joinPanel" class="panel">
    <h2>Join the session</h2>
    <div class="row">
      <input id="nameInput" type="text" maxlength="32" placeholder="Your name" autocomplete="name">
      <button id="joinBtn" class="primary" type="button">Join</button>
    </div>
    <p id="joinError" class="error"></p>
  </section>
  <section id="appPanel" class="panel hidden">
    <div class="row">
      <input id="topicInput" type="text" maxlength="120" placeholder="Topic">
      <button id="topicBtn" type="button">Set topic</button>
      <span id="topicText" class="muted"></span>
    </div>
    <h3>Your vote</h3>
    <div id="deck" class="deck"></div>
    <div class="row" style="margin-top: 12px">
      <button id="revealBtn" class="primary" type="button">Reveal</button>
      <button id="resetBtn" type="button">Reset round</button>
      <span id="hostNote" class="muted"></span>
    </div>
    <h3>Participants</h3>
    <ul id="people" class="people"></ul>
    <p id="summaryStatus" class="muted"></p>
    <p id="appError" class="error"></p>
  </section>
</main>
<script>
const CARDS = ['0', '1', '2', '3', '5', '8', '13', '21', '34', '55', '?'];
const byId = (id) => document.getElementById(id);
let socket = null;
let myName = '';
let isHost = false;
let myVote = null;

function applyTheme(value) {
  document.documentElement.setAttribute('data-theme', value);
  localStorage.setItem('storyvote-theme', value);
}
const savedTheme = localStorage.getItem('storyvote-theme') || 'system';
byId('themeSelect').value = savedTheme;
applyTheme(savedTheme);
byId('themeSelect').addEventListener('change', (e) => applyTheme(e.target.value));

byId('shareUrl').textContent = window.location.origin;
byId('copyShareBtn').addEventListener('click', () => {
  const url = byId('shareUrl').textContent;
  if (navigator.clipboard) { navigator.clipboard.writeText(url); }
});

byId('nameInput').value = localStorage.getItem('storyvote-name') || '';

function send(event) {
  if (socket && socket.readyState === WebSocket.OPEN) { socket.send(JSON.stringify(event)); }
}

function renderDeck() {
  const deck = byId('deck');
  deck.innerHTML = '';
  for (const card of CARDS) {
    const b = document.createElement('button');
    b.type = 'button';
    b.textContent = card;
    if (card === myVote) { b.className = 'selected'; }
    b.addEventListener('click', () => { myVote = card; renderDeck(); send({ type: 'vote', value: card }); });
    deck.appendChild(b);
  }
}

function summarize(votes) {
  const numbers = Object.values(votes).map(Number).filter((n) => Number.isFinite(n)).sort((a, b) => a - b);
  if (numbers.length === 0) { return 'No numeric votes.'; }
  const average = numbers.reduce((a, b) => a + b, 0) / numbers.length;
  const mid = Math.floor(numbers.length / 2);
  const median = numbers.length % 2 ? numbers[mid] : (numbers[mid - 1] + numbers[mid]) / 2;
  return 'Average: ' + average.toFixed(1) + ' | Median: ' + median;
}

function renderState(state) {
  const people = byId('people');
  people.innerHTML = '';
  for (const p of state.participants) {
    const li = document.createElement('li');
    const left = document.createElement('span');
    left.textContent = p.name + (p.isHost ? ' (host)' : '');
    const right = document.createElement('span');
    if (state.revealed) {
      right.textContent = state.votes[p.name] || '-';
    } else {
      right.textContent = p.voted ? 'Voted' : '';
    }
    li.appendChild(left);
    li.appendChild(right);
    people.appendChild(li);
    if (p.name === myName) { isHost = p.isHost; }
  }
  if (!state.revealed && !state.participants.some((p) => p.name === myName && p.voted)) { myVote = null; }
  byId('topicText').textContent = state.topic ? 'Topic: ' + state.topic : '';
  byId('summaryStatus').textContent = state.revealed ? summarize(state.votes) : 'Votes are hidden until the host reveals them.';
  byId('revealBtn').disabled = !isHost;
  byId('resetBtn').disabled = !isHost;
  byId('topicBtn').disabled = !isHost;
  byId('hostNote').textContent = isHost ? 'You are the host.' : '';
  renderDeck();
}

function join() {
  const name = byId('nameInput').value.trim();
  if (!name) { byId('joinError').textContent = 'Please enter your name.'; return; }
  localStorage.setItem('storyvote-name', name);
  const scheme = window.location.protocol === 'https:' ? 'wss' : 'ws';
  socket = new WebSocket(`${scheme}://${window.location.host}/ws?name=${encodeURIComponent(name)}`);
  socket.addEventListener('message', (msg) => {
    const event = JSON.parse(msg.data);
    if (event.type === 'connected') {
      myName = event.name;
      isHost = event.is_host;
      byId('joinPanel').classList.add('hidden');
      byId('appPanel').classList.remove('hidden');
      byId('joinError').textContent = '';
    } else if (event.type === 'state') {
      byId('appError').textContent = '';
      renderState(event);
    } else if (event.type === 'error') {
      if (myName) { byId('appError').textContent = event.message; } else { byId('joinError').textContent = event.message; }
    }
  });
  socket.addEventListener('close', () => {
    if (myName) { byId('appError').textContent = 'Disconnected from the session.'; }
  });
}

byId('joinBtn').addEventListener('click', join);
byId('nameInput').addEventListener('keydown', (e) => { if (e.key === 'Enter') { join(); } });
byId('revealBtn').addEventListener('click', () => send({ type: 'reveal' }));
byId('resetBtn').addEventListener('click', () => { myVote = null; send({ type: 'reset' }); });
byId('topicBtn').addEventListener('click', () => send({ type: 'setTopic', value: byId('topicInput').value }));
renderDeck();
</script>
</body>
</html>
"##);
        reveal_strlit("<!DOCTYPE html>");
        reveal_strlit("id=\"shareUrl\"");
        reveal_strlit("id=\"joinBtn\"");
        reveal_strlit("id=\"nameInput\"");
        reveal_strlit("id=\"appPanel\"");
        reveal_strlit("id=\"themeSelect\"");
        reveal_strlit("id=\"copyShareBtn\"");
        reveal_strlit("id=\"summaryStatus\"");
        reveal_strlit("/ws?name=${encodeURIComponent(name)}");
        assert(html@.subrange(0, 15) =~= "<!DOCTYPE html>"@);
        assert(occurs_at(html@, "<!DOCTYPE html>"@, 0));
        assert(html@.subrange(2188, 2201) =~= "id=\"shareUrl\""@);
        assert(occurs_at(html@, "id=\"shareUrl\""@, 2188));
        assert(html@.subrange(2731, 2743) =~= "id=\"joinBtn\""@);
        assert(occurs_at(html@, "id=\"joinBtn\""@, 2731));
        assert(html@.subrange(2630, 2644) =~= "id=\"nameInput\""@);
        assert(occurs_at(html@, "id=\"nameInput\""@, 2630));
        assert(html@.subrange(2864, 2877) =~= "id=\"appPanel\""@);
        assert(occurs_at(html@, "id=\"appPanel\""@, 2864));
        assert(html@.subrange(2337, 2353) =~= "id=\"themeSelect\""@);
        assert(occurs_at(html@, "id=\"themeSelect\""@, 2337));
        assert(html@.subrange(2222, 2239) =~= "id=\"copyShareBtn\""@);
        assert(occurs_at(html@, "id=\"copyShareBtn\""@, 2222));
        assert(html@.subrange(3501, 3519) =~= "id=\"summaryStatus\""@);
        assert(occurs_at(html@, "id=\"summaryStatus\""@, 3501));
        assert(html@.subrange(6933, 6969) =~= "/ws?name=${encodeURIComponent(name)}"@);
        assert(occurs_at(html@, "/ws?name=${encodeURIComponent(name)}"@, 6933));
    }
    html
}

} // verus!
