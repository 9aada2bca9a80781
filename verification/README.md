# nexus_gateway

Commands from humans to a team of agents, and the Discord channel that they
come through. The library decides; it neither waits nor reads nor sends.

- `command_executor`: what a system command (pause, resume, block, reroute,
  approve, answer) does to tickets and worker slots, as a list of store actions.
  `command_laws` proves what holds of the commands together.
- `react_loop`: what is done with each message that waits at the gateway.
- `channels::gateway`: one WebSocket connection to the Discord gateway as a
  state machine; `channels::gateway_laws` proves what holds over any run of it.
- `channels::reconnect`: when to connect again.
- `channels::mentions`: whether a message addresses the bot, and the message
  without the address.
- `channels::discord`: how messages are worded, and the request that posts them.
- `state`, `messages`: the data.
- `json`: what is trusted of `serde_json`. `text`: text as sequences of
  characters.

`app/` holds the sockets, timers, HTTP requests and the serde types around it.
