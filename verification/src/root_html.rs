//! The control page served at the root route.
//!
//! The page is static markup around one dynamic value: the server's current
//! civil time, embedded so the browser clock can start from it before any
//! synchronization.

use vstd::prelude::*;
use vstd::string::*;

verus! {

/// Everything of the page before the embedded server time.
pub const ROOT_HTML_HEAD: &'static str = "<!DOCTYPE html>
<html>
<head>
<meta charset=\"UTF-8\">
<meta name=\"viewport\" content=\"width=device-width, initial-scale=1.0\">
<title>Sprinklers</title>
<style>
    body { font-family: system-ui; background: #1a1a2e; color: #eee;
           display: flex; flex-direction: column; align-items: center;
           padding: 20px; margin: 0; min-height: 100vh; }
    button { padding: 12px 24px; font-size: 16px; background: #4ade80;
              color: #1a1a2e; border: none; border-radius: 8px; cursor: pointer; margin: 5px; }
    button:hover { background: #22c55e; }
    .time-display { font-size: 20px; margin: 10px; }
    .aspersor { background: #2a2a4e; padding: 15px; margin: 10px; border-radius: 8px;
                 display: flex; align-items: center; gap: 15px; min-width: 300px; }
    .aspersor.on { border-left: 4px solid #4ade80; }
    .aspersor.off { border-left: 4px solid #666; }
    .name { flex: 1; font-weight: bold; }
    #manual-mode { font-size: 18px; margin: 15px; padding: 10px; background: #2a2a4e; border-radius: 8px; }
    h2 { margin-top: 30px; }
    .aspersor { background: #2a2a4e; padding: 15px; margin: 10px; border-radius: 8px;
                  display: flex; flex-direction: column; gap: 10px; min-width: 300px; }
    .aspersor-header { display: flex; justify-content: space-between; align-items: center; }
    .schedule { color: #aaa; font-size: 14px; }
    .mode-btn { padding: 15px 25px; font-size: 18px; border: none; border-radius: 8px;
                cursor: pointer; margin: 15px; transition: all 0.2s; }
    .mode-btn.manual { background: #f59e0b; color: #1a1a2e; }
    .mode-btn.auto { background: #3b82f6; color: white; }
    .mode-btn:hover { opacity: 0.8; }
    .mode-btn small { display: block; font-size: 12px; opacity: 0.7; margin-top: 5px; }
    .edit-row { display: flex; gap: 10px; align-items: center; flex-wrap: wrap; }
    .edit-row label { font-size: 14px; color: #aaa; }
    .edit-row input { padding: 5px; border-radius: 4px; border: 1px solid #444;
                        background: #1a1a2e; color: #eee; }
    .edit-row input[type=\"time\"] { width: 100px; }
    .edit-row input[type=\"number\"] { width: 70px; }
    .save-btn { padding: 5px 10px; font-size: 14px; background: #3b82f6; }

    @import url('https://fonts.googleapis.com/css2?family=Orbitron:wght@700&display=swap');

    .clock-container {
      text-align: center;
      margin: 30px 0;
      padding: 25px;
      background: #0a0a0f;
      border-radius: 15px;
      box-shadow:
        0 0 20px rgba(0, 255, 136, 0.2),
        inset 0 0 30px rgba(0, 0, 0, 0.8);
      border: 2px solid #1a1a2e;
    }
    .clock-display {
      font-family: 'Courier New', 'Lucida Console', Monaco, monospace;
      font-size: clamp(28px, 8vw, 56px);  /* Responsive: min 28px, scales with screen, max 56px */
      font-weight: bold;
      color: #00ff88;
      text-shadow:
        0 0 10px #00ff88,
        0 0 20px #00ff88,
        0 0 40px #00ff8855;
      letter-spacing: clamp(2px, 1vw, 8px);  /* Also scale letter spacing */
      white-space: nowrap;  /* Prevent line wrap */
    }
    .clock-digit {
      display: inline-block;
      min-width: clamp(35px, 9vw, 70px);  /* Scale digit width */
    }
    .clock-digit.seconds {
      color: #00ccff;
      text-shadow:
        0 0 10px #00ccff,
        0 0 20px #00ccff;
    }
    .clock-colon {
      margin: 0 clamp(2px, 0.5vw, 5px);  /* Scale colon spacing */
      transition: opacity 0.2s;
    }
    .clock-date {
      font-family: 'Orbitron', monospace;
      font-size: 20px;
      color: #666;
      margin-top: 10px;
      letter-spacing: 3px;
    }
    #sync-status {
      margin-top: 15px;
      font-family: 'Orbitron', monospace;
      font-size: 12px;
      letter-spacing: 2px;
    }
    .synced { color: #00ff88; }
    .not-synced { color: #ff4444; }

    h1 {
      font-size: clamp(18px, 5vw, 32px);  /* Scales with screen */
      white-space: nowrap;  /* Force single line */
      margin: 10px 0;
    }

    .note {
      font-size: clamp(10px, 2.5vw, 14px);
      color: #f59e0b;
      background: rgba(245, 158, 11, 0.1);
      padding: 8px 12px;
      border-radius: 6px;
      border-left: 3px solid #f59e0b;
      margin: 15px 0;
      white-space: nowrap;
    }
    .mode-label {
      padding: 2px 8px;
      border-radius: 4px;
      font-weight: bold;
      font-size: 0.9em;
    }
    .mode-label.manual {
      background: #f59e0b;
      color: #1a1a2e;
    }
    .mode-label.auto {
      background: #3b82f6;
      color: white;
    }
</style>
</head>
<body>
<h1>\u{1f331} Control de Aspersores</h1>

<div class=\"clock-container\">
  <div class=\"clock-display\">
    <span class=\"clock-digit\" id=\"clock-hours\">00</span>
    <span class=\"clock-colon\">:</span>
    <span class=\"clock-digit\" id=\"clock-minutes\">00</span>
    <span class=\"clock-colon\">:</span>
    <span class=\"clock-digit seconds\" id=\"clock-seconds\">00</span>
  </div>
  <div class=\"clock-date\" id=\"clock-date\">00/00/0000</div>
  <div id=\"sync-status\"></div>
</div>

<div class=\"time-display\" id=\"client-time\"></div>
<div id=\"sync-status\"></div>
<button onclick=\"syncTime()\">Sync Time</button>
<div id=\"status\"></div>

<button id=\"manual-mode\" onclick=\"toggleManualMode()\"></button>

<p class=\"note\">\u{26a0}\u{fe0f} Manual: <span class=\"mode-label manual\">Manual</span> \u{2192} on/off \u{2192} <span class=\"mode-label auto\">Auto</span></p>

<h2>Aspersores</h2>
<div id=\"aspersores\">Loading...</div>

<script>
    const SERVER_TIME = \"";

/// Everything of the page after the embedded server time: the script that
/// drives the clock, the mode button, and the per-device cards.
pub const ROOT_HTML_TAIL: &'static str = "\";

    var serverDate = new Date(SERVER_TIME);
    var baseMillis = Date.now();

    function pad(n) {
        n = Math.floor(n);
        return (n < 10 ? '0' : '') + n;
    }

    function renderClock() {
        var now = new Date(serverDate.getTime() + (Date.now() - baseMillis));
        document.getElementById('clock-hours').textContent = pad(now.getHours());
        document.getElementById('clock-minutes').textContent = pad(now.getMinutes());
        document.getElementById('clock-seconds').textContent = pad(now.getSeconds());
        document.getElementById('clock-date').textContent =
            pad(now.getDate()) + '/' + pad(now.getMonth() + 1) + '/' + now.getFullYear();
    }
    setInterval(renderClock, 1000);
    renderClock();

    function syncTime() {
        var timestamp = Math.floor(Date.now() / 1000);
        fetch('/set_time?timestamp=' + timestamp).then(function () {
            var status = document.getElementById('sync-status');
            status.textContent = 'SYNCED';
            status.className = 'synced';
            serverDate = new Date();
            baseMillis = Date.now();
        });
    }

    function toggleManualMode() {
        fetch('/toggle/manual_mode').then(refreshInfo);
    }

    function toggleAspersor(name) {
        fetch('/toggle/' + name).then(refreshInfo);
    }

    function saveAspersor(name) {
        var row = document.getElementById('edit-' + name);
        var time = row.querySelector('input[type=time]').value.split(':');
        var initTime = (+time[0]) * 3600 + (+time[1]) * 60;
        var minutes = +row.querySelector('input[type=number]').value;
        fetch('/update_aspersor/' + name + '?duration=' + (minutes * 60) + '&init_time=' + initTime)
            .then(refreshInfo);
    }

    function refreshInfo() {
        fetch('/get_info').then(function (r) { return r.json(); }).then(function (info) {
            var modeBtn = document.getElementById('manual-mode');
            modeBtn.textContent = info.manual_mode ? 'Manual' : 'Auto';
            modeBtn.className = 'mode-btn ' + (info.manual_mode ? 'manual' : 'auto');
            var list = document.getElementById('aspersores');
            list.textContent = '';
            info.aspersores.forEach(function (a) {
                var card = document.createElement('div');
                card.className = 'aspersor ' + (a.on ? 'on' : 'off');
                var hours = pad(a.init_time / 3600) + ':' + pad((a.init_time % 3600) / 60);
                var minutes = Math.round(a.duration / 60);
                card.innerHTML =
                    '<div class=\"aspersor-header\"><span class=\"name\">' + a.name + '</span>' +
                    '<button onclick=\"toggleAspersor(\\'' + a.name + '\\')\">' + (a.on ? 'OFF' : 'ON') + '</button></div>' +
                    '<div class=\"schedule\">' + hours + ' - ' + minutes + ' min</div>' +
                    '<div class=\"edit-row\" id=\"edit-' + a.name + '\">' +
                    '<label>Inicio</label><input type=\"time\" value=\"' + hours + '\">' +
                    '<label>Minutos</label><input type=\"number\" value=\"' + minutes + '\">' +
                    '<button class=\"save-btn\" onclick=\"saveAspersor(\\'' + a.name + '\\')\">Guardar</button></div>';
                list.appendChild(card);
            });
        });
    }
    refreshInfo();

    </script>
</body>
</html>";

/// The full page for a given embedded server time.
pub open spec fn spec_root_html(server_time: Seq<char>) -> Seq<char> {
    ROOT_HTML_HEAD@ + server_time + ROOT_HTML_TAIL@
}

/// Render the control page around the server's current civil time.
pub fn get_root_html(server_time: &str) -> (r: String)
    ensures
        r@ == spec_root_html(server_time@),
{
    let mut page = String::from_str(ROOT_HTML_HEAD);
    page.append(server_time);
    page.append(ROOT_HTML_TAIL);
    page
}

} // verus!
