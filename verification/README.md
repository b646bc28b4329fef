# solar_frontend

The server side of a smart-home front end for a pool pump that runs on solar
power. An ESP32 controller reports over MQTT; the server stores the last values
in MySQL, feeds them to the dashboard over a websocket, and publishes the
commands and settings that logged-in users give.

- `src/` is the verified library (Verus):
  - `models.rs`: the data exchanged with the controller and the dashboard;
  - `text.rs`: decimal text of integers and its reading back;
  - `cookie.rs`: the session cookie, written and read back;
  - `auth.rs`: the account check, login and the session's user;
  - `json.rs`: the members read from the controller's JSON messages (serde_json);
  - `bridge.rs`: what the server stores, forwards and publishes for each
    message and command;
  - `server.rs`: the answers of the server functions and the page texts.
- `app/` is the program around it: Leptos pages, axum routes, the MQTT event
  loop, the database and the websocket.
- `tests/` runs the library on concrete values.
